//! The services around the session core: the external-tool service and the
//! tool-server configuration service. Their persistence and network edges
//! live with the embedding application; every decision they make is here.

pub mod cli;
pub mod mcp;
