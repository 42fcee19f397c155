//! Tool-server (MCP) configuration records and the requests that manage
//! them.

use vstd::prelude::*;
use std::collections::HashMap;

verus! {

/// A tool-server configuration.
#[derive(Debug, PartialEq, Eq)]
pub struct MCPServer {
    /// Server name.
    pub name: String,
    /// Transport type: `stdio` or `sse`.
    pub transport: String,
    /// Command to execute (for the stdio transport).
    pub command: Option<String>,
    /// Command arguments (for the stdio transport).
    pub args: Vec<String>,
    /// Environment variables handed to the command.
    pub env: HashMap<String, String>,
    /// Endpoint (for the sse transport).
    pub url: Option<String>,
    /// Configuration scope: `local`, `project` or `user`.
    pub scope: String,
    /// Whether the server is currently active.
    pub is_active: bool,
    /// Last observed status.
    pub status: ServerStatus,
}

/// Last observed status of a tool server.
#[derive(Debug, PartialEq, Eq)]
pub struct ServerStatus {
    /// Whether the server is running.
    pub running: bool,
    /// The last error message, if any.
    pub error: Option<String>,
    /// When the status was last checked.
    pub last_checked: Option<u64>,
}

/// Two server values describe the same server: every field is equal, the
/// environment as the same set of key-value pairs.
pub open spec fn same_server(a: &MCPServer, b: &MCPServer) -> bool {
    &&& a.name == b.name
    &&& a.transport == b.transport
    &&& a.command == b.command
    &&& a.args@ == b.args@
    &&& a.env@ == b.env@
    &&& a.url == b.url
    &&& a.scope == b.scope
    &&& a.is_active == b.is_active
    &&& a.status == b.status
}

/// Relies on `HashMap::clone`: the clone holds exactly the same key-value
/// pairs.
#[verifier::external_body]
fn clone_string_map(m: &HashMap<String, String>) -> (r: HashMap<String, String>)
    ensures
        r@ == m@,
{
    m.clone()
}

/// Clone a string, keeping its value.
fn clone_opt_string(s: &Option<String>) -> (r: Option<String>)
    ensures
        r == s,
{
    match s {
        Some(v) => Some(v.clone()),
        None => None,
    }
}

/// Clone a list of strings, keeping its values.
fn clone_strings(v: &Vec<String>) -> (r: Vec<String>)
    ensures
        r@ == v@,
{
    let mut out: Vec<String> = Vec::new();
    let n = v.len();
    for i in 0..n
        invariant
            n == v@.len(),
            out@ == v@.subrange(0, i as int),
    {
        out.push(v[i].clone());
        proof {
            assert(out@ =~= v@.subrange(0, i + 1));
        }
    }
    proof {
        assert(v@.subrange(0, n as int) =~= v@);
    }
    out
}

impl Clone for ServerStatus {
    /// A status clones to an equal status.
    fn clone(&self) -> (res: Self)
        ensures
            res == *self,
    {
        ServerStatus {
            running: self.running,
            error: clone_opt_string(&self.error),
            last_checked: self.last_checked,
        }
    }
}

impl Clone for MCPServer {
    /// A server clones to the same server.
    fn clone(&self) -> (res: Self)
        ensures
            same_server(&res, self),
    {
        MCPServer {
            name: self.name.clone(),
            transport: self.transport.clone(),
            command: clone_opt_string(&self.command),
            args: clone_strings(&self.args),
            env: clone_string_map(&self.env),
            url: clone_opt_string(&self.url),
            scope: self.scope.clone(),
            is_active: self.is_active,
            status: self.status.clone(),
        }
    }
}

/// A request to add a new tool server.
#[derive(Debug)]
pub struct AddMCPServerRequest {
    pub name: String,
    pub transport: String,
    pub command: Option<String>,
    pub args: Option<Vec<String>>,
    pub env: Option<HashMap<String, String>>,
    pub url: Option<String>,
    pub scope: Option<String>,
}

/// A request to update a tool server.
#[derive(Debug)]
pub struct UpdateMCPServerRequest {
    pub transport: Option<String>,
    pub command: Option<String>,
    pub args: Option<Vec<String>>,
    pub env: Option<HashMap<String, String>>,
    pub url: Option<String>,
    pub scope: Option<String>,
    pub is_active: Option<bool>,
}

/// The outcome of adding or updating a server.
#[derive(Debug, Clone, PartialEq, Eq)]
pub struct MCPServerResult {
    pub success: bool,
    pub message: String,
    pub server_name: Option<String>,
}

/// The outcome of importing several servers at once.
#[derive(Debug, Clone, PartialEq, Eq)]
pub struct ImportResult {
    pub imported_count: u32,
    pub failed_count: u32,
    pub servers: Vec<ImportServerResult>,
}

/// The outcome of importing one server.
#[derive(Debug, Clone, PartialEq, Eq)]
pub struct ImportServerResult {
    pub name: String,
    pub success: bool,
    pub error: Option<String>,
}

/// The outcome of probing a server's connection.
#[derive(Debug, PartialEq, Eq)]
pub struct ConnectionTestResult {
    pub success: bool,
    pub message: String,
    pub response_time_ms: Option<u64>,
    /// Extra detail, as a serialized document, if any.
    pub details: Option<String>,
}

/// Project-scope tool-server configuration, as stored on disk.
#[derive(Debug, Clone, PartialEq, Eq)]
pub struct MCPProjectConfig {
    pub mcp_servers: HashMap<String, MCPServerConfig>,
}

/// One server's entry in a project-scope configuration.
#[derive(Debug, Clone, PartialEq, Eq)]
pub struct MCPServerConfig {
    pub command: String,
    pub args: Vec<String>,
    pub env: HashMap<String, String>,
}

} // verus!
