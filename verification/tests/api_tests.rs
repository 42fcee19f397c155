use opcode::api::{health_response, overall_status, ApiServer, AppState, StateWrapper};
use opcode::config::AppConfig;
use opcode::error::AppError;
use opcode::response::{success, success_message, success_no_data, success_with_message};

#[test]
fn health_is_degraded_unless_everything_is_healthy() {
    assert_eq!(overall_status(true, true, true), "healthy");
    assert_eq!(overall_status(false, true, true), "degraded");
    assert_eq!(overall_status(true, false, true), "degraded");
    assert_eq!(overall_status(true, true, false), "degraded");
}

#[test]
fn health_response_reports_each_collaborator() {
    let h = health_response(true, true, false, "1.0.0".to_string(), "now".to_string());
    assert_eq!(h.status, "degraded");
    assert_eq!(h.version, "1.0.0");
    assert_eq!(h.timestamp, "now");
    assert_eq!(h.services.database, "healthy");
    assert_eq!(h.services.checkpoint_manager, "healthy");
    assert_eq!(h.services.process_registry, "unhealthy");
}

#[test]
fn app_state_holds_the_injected_collaborators() {
    let state = AppState::new("db".to_string(), 5u32, vec![1u8]);
    assert_eq!(state.agent_db, "db");
    assert_eq!(state.checkpoint_state, 5);
    assert_eq!(state.process_registry, vec![1u8]);
}

#[test]
fn api_server_defaults_its_port() {
    let server = ApiServer::new((), (), (), None);
    assert_eq!(server.port(), 3001);
    let server = ApiServer::new((), (), (), Some(8080));
    assert_eq!(server.port(), 8080);
    let (state, port) = server.into_state();
    assert_eq!(port, 8080);
    let _ = state;
}

#[test]
fn state_wrapper_hands_the_state_back() {
    let w = StateWrapper(42u64);
    assert_eq!(*w.get(), 42);
}

#[test]
fn success_envelopes() {
    let r = success(7u32);
    assert!(r.success);
    assert_eq!(r.data, Some(7));
    assert!(r.message.is_none());

    let r = success_with_message(1u8, "done".to_string());
    assert_eq!(r.message.as_deref(), Some("done"));

    let r = success_no_data();
    assert!(r.success);
    assert!(r.data.is_none());
    assert!(r.message.is_none());

    let r = success_message("all good".to_string());
    assert!(r.data.is_none());
    assert_eq!(r.message.as_deref(), Some("all good"));
}

#[test]
fn default_config_for_a_home_directory() {
    let cfg = AppConfig::default_with_home(&"/home/u".to_string());
    assert_eq!(cfg.server.host, "127.0.0.1");
    assert_eq!(cfg.server.port, 3000);
    assert_eq!(cfg.server.max_connections, 1000);
    assert_eq!(cfg.server.request_timeout, 30);
    assert_eq!(cfg.database.path, "/home/u/.opcode/api-server.db");
    assert_eq!(cfg.cli.projects_dir, "/home/u/.ccagent/projects");
    assert!(cfg.cli.binary_path.is_none());
    assert_eq!(cfg.cli.max_concurrent_sessions, 10);
    assert_eq!(cfg.cli.session_timeout, 3600);
    assert!(!cfg.auth.enabled);
    assert_eq!(cfg.auth.token_expiry, 86400);
    assert!(cfg.auth.api_keys.is_empty());
    assert_eq!(cfg.logging.level, "info");
    assert!(cfg.logging.file.is_none());
    assert!(!cfg.logging.json_format);
}

#[test]
fn error_texts_codes_and_statuses() {
    let e = AppError::NotFound { resource: "Agent".to_string(), id: "7".to_string() };
    assert_eq!(e.text(), "Agent with id 7 not found");
    assert_eq!(e.code(), "AGENT_NOT_FOUND");
    assert_eq!(e.public_message(), "Agent with id 7 not found");
    assert_eq!(e.status_code(), 404);

    let e = AppError::InvalidInput {
        field: "scope".to_string(),
        message: "bad".to_string(),
    };
    assert_eq!(e.text(), "Invalid input for field 'scope': bad");
    assert_eq!(e.code(), "INVALID_INPUT");
    assert_eq!(e.status_code(), 400);

    let e = AppError::DatabaseError("locked".to_string());
    assert_eq!(e.text(), "Database error: locked");
    assert_eq!(e.public_message(), "Database operation failed");
    assert_eq!(e.status_code(), 500);

    let e = AppError::CliError("gone".to_string());
    assert_eq!(e.text(), "Agent CLI error: gone");
    assert_eq!(e.status_code(), 502);

    let e = AppError::AgentError("odd".to_string());
    assert_eq!(e.code(), "AGENT_ERROR");
    assert_eq!(e.status_code(), 422);

    let e = AppError::McpError("down".to_string());
    assert_eq!(e.text(), "MCP error: down");
    assert_eq!(e.status_code(), 502);

    let e = AppError::InternalError("oops".to_string());
    assert_eq!(e.public_message(), "An internal error occurred");
    assert_eq!(e.status_code(), 500);

    assert_eq!(AppError::Unauthorized.public_message(), "Authentication required");
    assert_eq!(AppError::Unauthorized.status_code(), 401);
    assert_eq!(AppError::Forbidden.public_message(), "Access denied");
    assert_eq!(AppError::Forbidden.status_code(), 403);
}

#[test]
fn api_error_shape() {
    let e = AppError::McpError("down".to_string());
    let api = e.to_api_error();
    assert_eq!(api.code, "MCP_ERROR");
    assert_eq!(api.message, "MCP error: down");
    assert!(api.details.is_none());
}

#[test]
fn api_error_details_for_not_found_and_invalid_input() {
    let e = AppError::NotFound { resource: "Agent".to_string(), id: "7".to_string() };
    let api = e.to_api_error();
    assert_eq!(api.details.as_deref(), Some("{\"resource\":\"Agent\",\"id\":\"7\"}"));

    let e = AppError::InvalidInput { field: "scope".to_string(), message: "bad".to_string() };
    let api = e.to_api_error();
    assert_eq!(api.details.as_deref(), Some("{\"field\":\"scope\"}"));

    // The detail document escapes its payloads.
    let e = AppError::NotFound { resource: "A\"B".to_string(), id: "x\\y".to_string() };
    assert_eq!(
        e.details().as_deref(),
        Some("{\"resource\":\"A\\\"B\",\"id\":\"x\\\\y\"}")
    );
}
