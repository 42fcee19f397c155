use std::collections::HashMap;

use opcode::error::AppError;
use opcode::models::project::StartSessionRequest;
use opcode::models::mcp::{
    AddMCPServerRequest, ImportServerResult, MCPServer, ServerStatus, UpdateMCPServerRequest,
};
use opcode::services::cli::CliService;
use opcode::services::mcp::{ConnectionProbe, MCPService};

fn server(name: &str, scope: &str) -> MCPServer {
    MCPServer {
        name: name.to_string(),
        transport: "stdio".to_string(),
        command: Some("run-tool".to_string()),
        args: vec!["--serve".to_string()],
        env: HashMap::new(),
        url: None,
        scope: scope.to_string(),
        is_active: true,
        status: ServerStatus { running: false, error: None, last_checked: None },
    }
}

fn add_request(name: &str, scope: Option<&str>) -> AddMCPServerRequest {
    AddMCPServerRequest {
        name: name.to_string(),
        transport: "stdio".to_string(),
        command: Some("run-tool".to_string()),
        args: None,
        env: None,
        url: None,
        scope: scope.map(|s| s.to_string()),
    }
}

#[test]
fn mcp_service_defaults() {
    let svc = MCPService::new().unwrap();
    assert!(svc.cli_binary_path.is_none());
    assert!(svc.cli_config.binary_path.is_none());
    assert_eq!(svc.cli_config.max_concurrent_sessions, 10);
    assert_eq!(svc.cli_config.session_timeout, 3600);
}

#[test]
fn list_servers_combines_scopes_in_order() {
    let svc = MCPService::new().unwrap();
    let all = svc.list_servers(
        vec![server("u1", "user")],
        vec![server("p1", "project"), server("p2", "project")],
    );
    let names: Vec<&str> = all.iter().map(|s| s.name.as_str()).collect();
    assert_eq!(names, vec!["u1", "p1", "p2"]);
}

#[test]
fn get_server_finds_the_first_match() {
    let svc = MCPService::new().unwrap();
    let mut second = server("dup", "project");
    second.is_active = false;
    let servers = vec![server("other", "user"), server("dup", "user"), second];
    let found = svc.get_server(&servers, &"dup".to_string()).unwrap();
    assert_eq!(found.scope, "user");
    assert!(found.is_active);
}

#[test]
fn get_server_reports_not_found() {
    let svc = MCPService::new().unwrap();
    let servers = vec![server("a", "user")];
    match svc.get_server(&servers, &"missing".to_string()) {
        Err(AppError::NotFound { resource, id }) => {
            assert_eq!(resource, "MCP Server");
            assert_eq!(id, "missing");
        }
        other => panic!("expected NotFound, got {:?}", other),
    }
}

#[test]
fn add_server_dispatches_on_scope() {
    let svc = MCPService::new().unwrap();
    let ok = svc.add_server(add_request("s", Some("user"))).unwrap();
    assert!(ok.success);
    assert_eq!(ok.message, "Server added successfully");
    assert_eq!(ok.server_name, Some("s".to_string()));

    let ok = svc.add_server(add_request("s2", Some("project"))).unwrap();
    assert!(ok.success);

    // No scope means user scope.
    let ok = svc.add_server(add_request("s3", None)).unwrap();
    assert_eq!(ok.server_name, Some("s3".to_string()));

    match svc.add_server(add_request("s4", Some("global"))) {
        Err(AppError::InvalidInput { field, message }) => {
            assert_eq!(field, "scope");
            assert_eq!(message, "Scope must be 'user' or 'project'");
        }
        other => panic!("expected InvalidInput, got {:?}", other),
    }
}

#[test]
fn update_and_remove_respect_the_found_scope() {
    let svc = MCPService::new().unwrap();
    let servers = vec![server("good", "user"), server("odd", "global")];
    let update = UpdateMCPServerRequest {
        transport: None,
        command: None,
        args: None,
        env: None,
        url: None,
        scope: None,
        is_active: Some(false),
    };
    let ok = svc.update_server(&servers, &"good".to_string(), update).unwrap();
    assert_eq!(ok.message, "Server updated successfully");

    match svc.remove_server(&servers, &"odd".to_string()) {
        Err(AppError::McpError(m)) => assert_eq!(m, "Unknown scope: global"),
        other => panic!("expected McpError, got {:?}", other),
    }
    let ok = svc.remove_server(&servers, &"good".to_string()).unwrap();
    assert_eq!(ok.message, "Server removed successfully");
}

#[test]
fn import_tally_counts_successes_and_failures() {
    let svc = MCPService::new().unwrap();
    let batch = vec![
        ImportServerResult { name: "a".to_string(), success: true, error: None },
        ImportServerResult {
            name: "b".to_string(),
            success: false,
            error: Some("bad config".to_string()),
        },
        ImportServerResult { name: "c".to_string(), success: true, error: None },
    ];
    let result = svc.summarize_import(batch);
    assert_eq!(result.imported_count, 2);
    assert_eq!(result.failed_count, 1);
    assert_eq!(result.servers.len(), 3);
    assert_eq!(result.servers[1].error.as_deref(), Some("bad config"));
}

#[test]
fn cli_service_plans_a_detached_start() {
    let svc: CliService<()> = CliService::with_binary("/opt/tool/ccagent".to_string(), ());
    let req = StartSessionRequest {
        project_path: "/work/proj".to_string(),
        prompt: "hi".to_string(),
        model: Some("m1".to_string()),
        session_type: None,
        session_id: None,
        additional_args: Some(vec!["--fast".to_string()]),
    };
    let plan = svc.plan_start_session(&req);
    assert_eq!(plan.program, "/opt/tool/ccagent");
    assert_eq!(plan.working_directory, "/work/proj");
    assert_eq!(plan.session_id.len(), 36);
    assert_eq!(
        plan.args,
        vec![
            "--project-path".to_string(),
            "/work/proj".to_string(),
            "--model".to_string(),
            "m1".to_string(),
            "--fast".to_string(),
        ]
    );
}

#[test]
fn cli_service_plans_without_model_or_extras() {
    let svc: CliService<()> = CliService::with_binary("/opt/tool/ccagent".to_string(), ());
    let req = StartSessionRequest {
        project_path: "/work".to_string(),
        prompt: "hi".to_string(),
        model: None,
        session_type: None,
        session_id: None,
        additional_args: None,
    };
    let plan = svc.plan_start_session(&req);
    assert_eq!(
        plan.args,
        vec!["--project-path".to_string(), "/work".to_string()]
    );
}

#[test]
fn connection_probe_dispatches_on_transport() {
    let svc = MCPService::new().unwrap();

    let probe = svc.test_connection_plan(server("s", "user")).unwrap();
    match probe {
        ConnectionProbe::Stdio { command, args, .. } => {
            assert_eq!(command, "run-tool");
            assert_eq!(args, vec!["--serve".to_string()]);
        }
        other => panic!("expected a command probe, got {:?}", other),
    }

    let mut no_command = server("s", "user");
    no_command.command = None;
    let r = svc.test_connection_plan(no_command).unwrap_err();
    assert!(!r.success);
    assert_eq!(r.message, "No command specified for stdio transport");
    assert!(r.response_time_ms.is_none() && r.details.is_none());

    let mut sse = server("s", "user");
    sse.transport = "sse".to_string();
    sse.url = Some("http://localhost:1/events".to_string());
    match svc.test_connection_plan(sse).unwrap() {
        ConnectionProbe::Sse { url } => assert_eq!(url, "http://localhost:1/events"),
        other => panic!("expected an endpoint probe, got {:?}", other),
    }

    let mut sse_no_url = server("s", "user");
    sse_no_url.transport = "sse".to_string();
    let r = svc.test_connection_plan(sse_no_url).unwrap_err();
    assert_eq!(r.message, "No URL specified for SSE transport");

    let mut odd = server("s", "user");
    odd.transport = "carrier-pigeon".to_string();
    let r = svc.test_connection_plan(odd).unwrap_err();
    assert_eq!(r.message, "Unsupported transport type: carrier-pigeon");
}

#[test]
fn probe_observations_shape_exact_results() {
    let svc = MCPService::new().unwrap();

    let ok = svc.stdio_test_result(true, &"ready".to_string(), &"".to_string(), Some(0), 12);
    assert!(ok.success);
    assert_eq!(ok.message, "Connection successful");
    assert_eq!(ok.response_time_ms, Some(12));
    assert_eq!(
        ok.details.as_deref(),
        Some("{\"stdout\":\"ready\",\"stderr\":\"\",\"status_code\":0}")
    );

    let bad = svc.stdio_test_result(false, &"".to_string(), &"no such tool".to_string(), None, 3);
    assert!(!bad.success);
    assert_eq!(bad.message, "Connection failed: no such tool");
    assert_eq!(
        bad.details.as_deref(),
        Some("{\"stdout\":\"\",\"stderr\":\"no such tool\",\"status_code\":null}")
    );

    let spawn = svc.stdio_spawn_failed(&"permission denied".to_string());
    assert_eq!(spawn.message, "Failed to execute command: permission denied");
    assert!(!spawn.success && spawn.details.is_none());

    let http_ok = svc.sse_test_result(204, 8);
    assert!(http_ok.success);
    assert_eq!(http_ok.message, "HTTP 204");
    assert_eq!(http_ok.details.as_deref(), Some("{\"status_code\":204}"));

    let http_bad = svc.sse_test_result(503, 9);
    assert!(!http_bad.success);
    assert_eq!(http_bad.message, "HTTP 503");

    let down = svc.sse_connect_failed(&"refused".to_string());
    assert_eq!(down.message, "Connection failed: refused");
    assert!(!down.success);
}
