//! Agent records: stored agents, their runs, and the requests that create
//! and update them.

use vstd::prelude::*;

verus! {

/// An agent stored in the database.
#[derive(Debug, Clone, PartialEq, Eq)]
pub struct Agent {
    pub id: Option<i64>,
    pub name: String,
    pub icon: String,
    pub system_prompt: String,
    pub default_task: Option<String>,
    pub model: String,
    /// Hooks configuration, as a serialized document.
    pub hooks: Option<String>,
    pub created_at: String,
    pub updated_at: String,
}

/// One execution run of an agent.
#[derive(Debug, Clone, PartialEq, Eq)]
pub struct AgentRun {
    pub id: Option<i64>,
    pub agent_id: i64,
    pub agent_name: String,
    pub agent_icon: String,
    pub task: String,
    pub model: String,
    pub project_path: String,
    /// The session identifier the run executes under.
    pub session_id: String,
    pub created_at: String,
    pub status: AgentRunStatus,
    pub output: Option<String>,
}

/// Where an agent run stands; mirrors the session lifecycle.
#[derive(Debug, Clone, Copy, PartialEq, Eq, Structural)]
pub enum AgentRunStatus {
    Running,
    Completed,
    Failed,
    Cancelled,
}

/// A request to create a new agent.
#[derive(Debug)]
pub struct CreateAgentRequest {
    pub name: String,
    pub icon: String,
    pub system_prompt: String,
    pub default_task: Option<String>,
    pub model: String,
    pub hooks: Option<String>,
}

/// A request to run an agent.
#[derive(Debug)]
pub struct RunAgentRequest {
    pub agent_id: i64,
    pub task: String,
    pub project_path: String,
    /// An optional model override.
    pub model: Option<String>,
}

/// A request to update an existing agent.
#[derive(Debug)]
pub struct UpdateAgentRequest {
    pub name: String,
    pub icon: String,
    pub system_prompt: String,
    pub default_task: Option<String>,
    pub model: String,
    pub hooks: Option<String>,
}

/// An agent run together with its runtime metrics.
#[derive(Debug, Clone, PartialEq, Eq)]
pub struct AgentRunWithMetrics {
    pub id: Option<i64>,
    pub agent_id: i64,
    pub agent_name: String,
    pub agent_icon: String,
    pub task: String,
    pub model: String,
    pub project_path: String,
    pub session_id: String,
    pub status: String,
    pub pid: Option<i64>,
    pub duration_ms: Option<i64>,
    pub total_tokens: Option<i64>,
    pub process_started_at: Option<String>,
    pub created_at: String,
    pub completed_at: Option<String>,
    pub output: Option<String>,
}

/// The export envelope for sharing an agent.
#[derive(Debug)]
pub struct AgentExport {
    pub version: i32,
    pub exported_at: String,
    pub agent: AgentExportData,
}

/// The exported agent definition itself.
#[derive(Debug)]
pub struct AgentExportData {
    pub name: String,
    pub icon: String,
    pub system_prompt: String,
    pub default_task: Option<String>,
    pub model: String,
    pub hooks: Option<String>,
}

/// An agent file hosted in a repository.
#[derive(Debug)]
pub struct GitHubAgentFile {
    pub name: String,
    pub path: String,
    pub download_url: String,
    pub size: i64,
    pub sha: String,
}

/// One discovered installation of the external tool.
#[derive(Debug, Clone, PartialEq, Eq)]
pub struct CliInstallation {
    pub path: String,
    pub version: Option<String>,
    pub source: String,
    pub installation_type: String,
}

} // verus!
