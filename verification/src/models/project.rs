//! Project and session records, and the requests that manage them.

use vstd::prelude::*;

verus! {

/// A project in the tool's projects directory.
#[derive(Debug, Clone, PartialEq, Eq)]
pub struct Project {
    /// The project identifier, derived from the directory name.
    pub id: String,
    /// The original project path, decoded from the directory name.
    pub path: String,
    /// Session identifiers: the per-session log files, without extension.
    pub sessions: Vec<String>,
    /// When the project directory was created (seconds since the epoch).
    pub created_at: u64,
    /// When the most recent session was created, if any.
    pub most_recent_session: Option<u64>,
}

/// A session with its metadata.
#[derive(Debug, Clone, PartialEq, Eq)]
pub struct Session {
    /// The session identifier.
    pub id: String,
    /// The project this session belongs to.
    pub project_id: String,
    /// The project path.
    pub project_path: String,
    /// When the session was created (seconds since the epoch).
    pub created_at: u64,
    /// How many messages the session holds.
    pub message_count: usize,
    /// The size of the session's log file in bytes.
    pub file_size: u64,
}

/// A request to start a session of the external tool.
#[derive(Debug)]
pub struct StartSessionRequest {
    pub project_path: String,
    pub prompt: String,
    pub model: Option<String>,
    pub session_type: Option<String>,
    pub session_id: Option<String>,
    pub additional_args: Option<Vec<String>>,
}

/// A request to create a new project.
#[derive(Debug)]
pub struct CreateProjectRequest {
    pub name: String,
    pub path: String,
    pub description: Option<String>,
}

/// A request to update an existing project.
#[derive(Debug)]
pub struct UpdateProjectRequest {
    pub name: Option<String>,
    pub description: Option<String>,
}

/// A request to execute a command in a running session.
#[derive(Debug)]
pub struct ExecuteCommandRequest {
    pub session_id: String,
    pub command: String,
}

/// A session record as the persistence layer stores it.
#[derive(Debug, Clone, PartialEq, Eq)]
pub struct SessionRecord {
    pub id: i64,
    pub task: String,
    pub model: String,
    pub project_path: String,
    pub session_id: String,
    pub created_at: String,
    pub status: String,
    pub output: Option<String>,
}

} // verus!
