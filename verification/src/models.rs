//! The data model of the surrounding service: projects, sessions, agents
//! and tool-server records, as plain values.

pub mod agent;
pub mod project;
pub mod mcp;

use vstd::prelude::*;

verus! {

/// Storage usage statistics for the projects directory.
#[derive(Debug, Clone, PartialEq, Eq)]
pub struct StorageUsage {
    pub total_size_bytes: u64,
    pub total_files: usize,
    pub projects_count: usize,
    pub sessions_count: usize,
}

/// A stored tool-server configuration.
#[derive(Debug, Clone, PartialEq, Eq)]
pub struct McpServer {
    pub id: Option<i64>,
    pub name: String,
    pub command: String,
    pub args: Vec<String>,
    pub env: Option<std::collections::HashMap<String, String>>,
    pub enabled: bool,
    pub created_at: String,
    pub updated_at: String,
}

/// A request to create or update a stored tool server.
#[derive(Debug)]
pub struct McpServerRequest {
    pub name: String,
    pub command: String,
    pub args: Vec<String>,
    pub env: Option<std::collections::HashMap<String, String>>,
    pub enabled: bool,
}

/// A stored slash-command definition.
#[derive(Debug, Clone, PartialEq, Eq)]
pub struct SlashCommand {
    pub id: Option<i64>,
    pub name: String,
    pub command: String,
    pub description: Option<String>,
    pub enabled: bool,
    pub created_at: String,
    pub updated_at: String,
}

/// A request to create or update a slash command.
#[derive(Debug)]
pub struct SlashCommandRequest {
    pub name: String,
    pub command: String,
    pub description: Option<String>,
    pub enabled: bool,
}

} // verus!
