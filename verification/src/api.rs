//! The request and response shapes of the HTTP surface, the injectable
//! application state behind it, and the health computation. Routing,
//! serialization and the network itself live with the embedding
//! application; everything that decides something is here.

use vstd::prelude::*;

verus! {

/// Query parameters for listing sessions.
#[derive(Debug)]
pub struct SessionsQuery {
    pub project_path: Option<String>,
}

/// Query parameters for a live connection.
#[derive(Debug)]
pub struct WebSocketQuery {
    pub session_id: String,
}

/// A request to create an agent, with its permission toggles.
#[derive(Debug)]
pub struct CreateAgentRequest {
    pub name: String,
    pub icon: String,
    pub system_prompt: String,
    pub default_task: Option<String>,
    pub model: Option<String>,
    pub enable_file_read: Option<bool>,
    pub enable_file_write: Option<bool>,
    pub enable_network: Option<bool>,
    pub hooks: Option<String>,
}

/// A request to execute an agent against a project.
#[derive(Debug)]
pub struct ExecuteAgentRequest {
    pub project_path: String,
    pub task: String,
    pub model: Option<String>,
}

/// Pagination parameters for agent listings.
#[derive(Debug, Clone, Copy, PartialEq, Eq, Structural)]
pub struct AgentQueryParams {
    pub page: Option<u32>,
    pub limit: Option<u32>,
}

/// The health report of the whole service.
#[derive(Debug, Clone, PartialEq, Eq)]
pub struct HealthResponse {
    pub status: String,
    pub version: String,
    pub timestamp: String,
    pub services: ServiceStatus,
}

/// The health of each collaborator.
#[derive(Debug, Clone, PartialEq, Eq)]
pub struct ServiceStatus {
    pub database: String,
    pub checkpoint_manager: String,
    pub process_registry: String,
}

/// The health label of one collaborator.
pub fn health_label(ok: bool) -> (r: String)
    ensures
        ok ==> r@ == "healthy"@,
        !ok ==> r@ == "unhealthy"@,
{
    if ok {
        "healthy".to_owned()
    } else {
        "unhealthy".to_owned()
    }
}

/// The overall status: healthy exactly when every collaborator is.
pub fn overall_status(database_ok: bool, checkpoint_ok: bool, process_ok: bool) -> (r: String)
    ensures
        database_ok && checkpoint_ok && process_ok ==> r@ == "healthy"@,
        !(database_ok && checkpoint_ok && process_ok) ==> r@ == "degraded"@,
{
    if database_ok && checkpoint_ok && process_ok {
        "healthy".to_owned()
    } else {
        "degraded".to_owned()
    }
}

/// Build the health report from the three collaborator probes.
pub fn health_response(
    database_ok: bool,
    checkpoint_ok: bool,
    process_ok: bool,
    version: String,
    timestamp: String,
) -> (r: HealthResponse)
    ensures
        database_ok && checkpoint_ok && process_ok ==> r.status@ == "healthy"@,
        !(database_ok && checkpoint_ok && process_ok) ==> r.status@ == "degraded"@,
        r.version == version,
        r.timestamp == timestamp,
        r.services.database@ == (if database_ok {
            "healthy"@
        } else {
            "unhealthy"@
        }),
        r.services.checkpoint_manager@ == (if checkpoint_ok {
            "healthy"@
        } else {
            "unhealthy"@
        }),
        r.services.process_registry@ == (if process_ok {
            "healthy"@
        } else {
            "unhealthy"@
        }),
{
    HealthResponse {
        status: overall_status(database_ok, checkpoint_ok, process_ok),
        version,
        timestamp,
        services: ServiceStatus {
            database: health_label(database_ok),
            checkpoint_manager: health_label(checkpoint_ok),
            process_registry: health_label(process_ok),
        },
    }
}

/// A thin wrapper that hands state to request handlers.
pub struct StateWrapper<T>(pub T);

impl<T> StateWrapper<T> {
    /// The wrapped state.
    pub fn get(&self) -> (r: &T)
        ensures
            r == self.0,
    {
        &self.0
    }
}

/// The injectable application state: the persistence handle, the
/// checkpoint manager and the process registry, handed in by whoever
/// assembles the service — no process-wide singletons.
pub struct AppState<Db, Cp, Pr> {
    pub agent_db: Db,
    pub checkpoint_state: Cp,
    pub process_registry: Pr,
}

impl<Db, Cp, Pr> AppState<Db, Cp, Pr> {
    /// Assemble the state from its injected collaborators.
    pub fn new(agent_db: Db, checkpoint_state: Cp, process_registry: Pr) -> (r: Self)
        ensures
            r.agent_db == agent_db,
            r.checkpoint_state == checkpoint_state,
            r.process_registry == process_registry,
    {
        AppState { agent_db, checkpoint_state, process_registry }
    }
}

/// The HTTP server: its state and the port it will listen on.
pub struct ApiServer<Db, Cp, Pr> {
    app_state: AppState<Db, Cp, Pr>,
    port: u16,
}

impl<Db, Cp, Pr> ApiServer<Db, Cp, Pr> {
    /// The port the server listens on.
    pub closed spec fn spec_port(&self) -> u16 {
        self.port
    }

    /// The state the server runs with.
    pub closed spec fn spec_state(&self) -> &AppState<Db, Cp, Pr> {
        &self.app_state
    }

    /// Assemble a server over the injected collaborators; without an
    /// explicit port it listens on 3001.
    pub fn new(agent_db: Db, checkpoint_state: Cp, process_registry: Pr, port: Option<u16>) -> (r:
        Self)
        ensures
            r.spec_port() == (match port {
                Some(p) => p,
                None => 3001u16,
            }),
            r.spec_state().agent_db == agent_db,
            r.spec_state().checkpoint_state == checkpoint_state,
            r.spec_state().process_registry == process_registry,
    {
        let app_state = AppState::new(agent_db, checkpoint_state, process_registry);
        let port = match port {
            Some(p) => p,
            None => 3001,
        };
        ApiServer { app_state, port }
    }

    /// The port the server listens on.
    pub fn port(&self) -> (r: u16)
        ensures
            r == self.spec_port(),
    {
        self.port
    }

    /// Hand the state back to whoever builds the router around it.
    pub fn into_state(self) -> (r: (AppState<Db, Cp, Pr>, u16))
        ensures
            r.0 == self.spec_state(),
            r.1 == self.spec_port(),
    {
        (self.app_state, self.port)
    }
}

} // verus!
