//! The tool-server configuration service. Reading and writing the stored
//! configurations, probing connections and parsing import files are the
//! embedding application's input/output; every decision over what was read
//! — which server a name means, which scope an operation touches, how an
//! import is tallied — is made and specified here.

use vstd::prelude::*;
use crate::config::CliConfig;
use std::collections::HashMap;
use crate::encode::{
    append_escaped,
    append_i32,
    append_str,
    append_u64_digits,
    chars_to_string,
    dec_digits,
    escape_string,
    exit_code_chars,
};
use crate::error::AppError;
use crate::models::mcp::{
    AddMCPServerRequest,
    ConnectionTestResult,
    ImportResult,
    ImportServerResult,
    MCPServer,
    MCPServerResult,
    UpdateMCPServerRequest,
    same_server,
};

verus! {

/// The service, with its tool configuration and the binary location, when
/// one has been resolved.
pub struct MCPService {
    pub cli_config: CliConfig,
    pub cli_binary_path: Option<String>,
}

/// The scope an add request asks for: the named one, or `user` by default.
pub open spec fn requested_scope(scope: Option<String>) -> Seq<char> {
    match scope {
        Some(s) => s@,
        None => "user"@,
    }
}

/// The position of the first server carrying `name`, or -1.
pub open spec fn first_named(servers: Seq<MCPServer>, name: Seq<char>) -> int
    decreases servers.len(),
{
    if servers.len() == 0 {
        -1
    } else if servers[0].name@ == name {
        0
    } else {
        let r = first_named(servers.skip(1), name);
        if r == -1 {
            -1
        } else {
            r + 1
        }
    }
}

/// `first_named` names exactly the first hit.
proof fn lemma_first_named_at(servers: Seq<MCPServer>, name: Seq<char>, i: int)
    requires
        0 <= i < servers.len(),
        servers[i].name@ == name,
        forall|j: int| 0 <= j < i ==> servers[j].name@ != name,
    ensures
        first_named(servers, name) == i,
    decreases i,
{
    if i > 0 {
        lemma_first_named_at(servers.skip(1), name, i - 1);
    }
}

/// When no server carries the name, `first_named` says so.
proof fn lemma_first_named_none(servers: Seq<MCPServer>, name: Seq<char>)
    requires
        forall|j: int| 0 <= j < servers.len() ==> servers[j].name@ != name,
    ensures
        first_named(servers, name) == -1,
    decreases servers.len(),
{
    if servers.len() > 0 {
        lemma_first_named_none(servers.skip(1), name);
    }
}

/// How many imports of a batch succeeded.
pub open spec fn count_successes(servers: Seq<ImportServerResult>) -> nat
    decreases servers.len(),
{
    if servers.len() == 0 {
        0
    } else {
        count_successes(servers.drop_last()) + if servers.last().success {
            1nat
        } else {
            0nat
        }
    }
}

impl MCPService {
    /// Stand the service up with the default tool configuration and no
    /// resolved binary.
    pub fn new() -> (r: Result<MCPService, AppError>)
        ensures
            r matches Ok(s) && {
                &&& s.cli_binary_path is None
                &&& s.cli_config.binary_path is None
                &&& s.cli_config.max_concurrent_sessions == 10
                &&& s.cli_config.session_timeout == 3600
            },
    {
        Ok(MCPService { cli_config: CliConfig::default(), cli_binary_path: None })
    }

    /// All servers, user scope first, then project scope — the two scope
    /// listings are read by the embedding application and combined here.
    pub fn list_servers(&self, user_servers: Vec<MCPServer>, project_servers: Vec<MCPServer>) -> (r:
        Vec<MCPServer>)
        ensures
            r@ == user_servers@ + project_servers@,
    {
        let mut all = user_servers;
        let mut rest = project_servers;
        all.append(&mut rest);
        all
    }

    /// The first server carrying `name`, or `NotFound` naming it.
    pub fn get_server(&self, servers: &Vec<MCPServer>, name: &String) -> (r: Result<
        MCPServer,
        AppError,
    >)
        ensures
            first_named(servers@, name@) >= 0 ==> (r matches Ok(s) && same_server(
                &s,
                &servers@[first_named(servers@, name@)],
            )),
            first_named(servers@, name@) < 0 ==> (r matches Err(e) && (e matches AppError::NotFound {
                resource,
                id,
            } && resource@ == "MCP Server"@ && id == name)),
    {
        let n = servers.len();
        for i in 0..n
            invariant
                n == servers@.len(),
                forall|j: int| 0 <= j < i ==> servers@[j].name@ != name@,
        {
            if servers[i].name == *name {
                proof {
                    lemma_first_named_at(servers@, name@, i as int);
                }
                return Ok(servers[i].clone());
            }
        }
        proof {
            lemma_first_named_none(servers@, name@);
        }
        Err(AppError::NotFound { resource: "MCP Server".to_owned(), id: name.clone() })
    }

    /// Add a server in the requested scope (`user` when none is named);
    /// any other scope is invalid input.
    pub fn add_server(&self, request: AddMCPServerRequest) -> (r: Result<MCPServerResult, AppError>)
        ensures
            requested_scope(request.scope) == "user"@ || requested_scope(request.scope)
                == "project"@ ==> (r matches Ok(res) && {
                &&& res.success
                &&& res.message@ == "Server added successfully"@
                &&& res.server_name == Some(request.name)
            }),
            requested_scope(request.scope) != "user"@ && requested_scope(request.scope)
                != "project"@ ==> (r matches Err(e) && (e matches AppError::InvalidInput {
                field,
                message,
            } && field@ == "scope"@ && message@ == "Scope must be 'user' or 'project'"@)),
    {
        let scope: String = match &request.scope {
            Some(s) => s.clone(),
            None => "user".to_owned(),
        };
        let user_scope: String = "user".to_owned();
        let project_scope: String = "project".to_owned();
        if scope == user_scope {
            self.add_user_server(request)
        } else if scope == project_scope {
            self.add_project_server(request)
        } else {
            Err(
                AppError::InvalidInput {
                    field: "scope".to_owned(),
                    message: "Scope must be 'user' or 'project'".to_owned(),
                },
            )
        }
    }

    /// Record a server at user scope; the write itself is the embedding
    /// application's, from the returned outcome.
    fn add_user_server(&self, request: AddMCPServerRequest) -> (r: Result<
        MCPServerResult,
        AppError,
    >)
        ensures
            (r matches Ok(res) && {
                &&& res.success
                &&& res.message@ == "Server added successfully"@
                &&& res.server_name == Some(request.name)
            }),
    {
        Ok(
            MCPServerResult {
                success: true,
                message: "Server added successfully".to_owned(),
                server_name: Some(request.name),
            },
        )
    }

    /// Record a server at project scope; the write itself is the embedding
    /// application's, from the returned outcome.
    fn add_project_server(&self, request: AddMCPServerRequest) -> (r: Result<
        MCPServerResult,
        AppError,
    >)
        ensures
            (r matches Ok(res) && {
                &&& res.success
                &&& res.message@ == "Server added successfully"@
                &&& res.server_name == Some(request.name)
            }),
    {
        Ok(
            MCPServerResult {
                success: true,
                message: "Server added successfully".to_owned(),
                server_name: Some(request.name),
            },
        )
    }

    /// Update the server `name` names, in whichever scope it was found in;
    /// a server recorded under any other scope is a configuration error.
    pub fn update_server(
        &self,
        servers: &Vec<MCPServer>,
        name: &String,
        request: UpdateMCPServerRequest,
    ) -> (r: Result<MCPServerResult, AppError>)
        ensures
            first_named(servers@, name@) < 0 ==> (r matches Err(e) && e matches AppError::NotFound {
                ..
            }),
            first_named(servers@, name@) >= 0 && {
                let scope = servers@[first_named(servers@, name@)].scope@;
                scope == "user"@ || scope == "project"@
            } ==> (r matches Ok(res) && {
                &&& res.success
                &&& res.message@ == "Server updated successfully"@
                &&& res.server_name == Some(*name)
            }),
            first_named(servers@, name@) >= 0 && {
                let scope = servers@[first_named(servers@, name@)].scope@;
                scope != "user"@ && scope != "project"@
            } ==> (r matches Err(e) && e matches AppError::McpError(m) && m@ == "Unknown scope: "@
                + servers@[first_named(servers@, name@)].scope@),
    {
        let server = match self.get_server(servers, name) {
            Ok(s) => s,
            Err(e) => {
                return Err(e);
            },
        };
        let _ = request;
        let user_scope: String = "user".to_owned();
        let project_scope: String = "project".to_owned();
        if server.scope == user_scope || server.scope == project_scope {
            Ok(
                MCPServerResult {
                    success: true,
                    message: "Server updated successfully".to_owned(),
                    server_name: Some(name.clone()),
                },
            )
        } else {
            Err(AppError::McpError(unknown_scope_message(&server.scope)))
        }
    }

    /// Remove the server `name` names, in whichever scope it was found in;
    /// a server recorded under any other scope is a configuration error.
    pub fn remove_server(&self, servers: &Vec<MCPServer>, name: &String) -> (r: Result<
        MCPServerResult,
        AppError,
    >)
        ensures
            first_named(servers@, name@) < 0 ==> (r matches Err(e) && e matches AppError::NotFound {
                ..
            }),
            first_named(servers@, name@) >= 0 && {
                let scope = servers@[first_named(servers@, name@)].scope@;
                scope == "user"@ || scope == "project"@
            } ==> (r matches Ok(res) && {
                &&& res.success
                &&& res.message@ == "Server removed successfully"@
                &&& res.server_name == Some(*name)
            }),
            first_named(servers@, name@) >= 0 && {
                let scope = servers@[first_named(servers@, name@)].scope@;
                scope != "user"@ && scope != "project"@
            } ==> (r matches Err(e) && e matches AppError::McpError(m) && m@ == "Unknown scope: "@
                + servers@[first_named(servers@, name@)].scope@),
    {
        let server = match self.get_server(servers, name) {
            Ok(s) => s,
            Err(e) => {
                return Err(e);
            },
        };
        let user_scope: String = "user".to_owned();
        let project_scope: String = "project".to_owned();
        if server.scope == user_scope || server.scope == project_scope {
            Ok(
                MCPServerResult {
                    success: true,
                    message: "Server removed successfully".to_owned(),
                    server_name: Some(name.clone()),
                },
            )
        } else {
            Err(AppError::McpError(unknown_scope_message(&server.scope)))
        }
    }

    /// Tally a batch of import outcomes, as read and attempted by the
    /// embedding application.
    pub fn summarize_import(&self, servers: Vec<ImportServerResult>) -> (r: ImportResult)
        requires
            servers@.len() <= u32::MAX,
        ensures
            r.imported_count == count_successes(servers@),
            r.failed_count + r.imported_count == servers@.len(),
            r.servers == servers,
    {
        let mut imported: u32 = 0;
        let mut failed: u32 = 0;
        let n = servers.len();
        for i in 0..n
            invariant
                n == servers@.len() <= u32::MAX,
                imported == count_successes(servers@.subrange(0, i as int)),
                imported + failed == i,
        {
            proof {
                assert(servers@.subrange(0, i + 1).drop_last() =~= servers@.subrange(0, i as int));
                assert(servers@.subrange(0, i + 1).last() == servers@[i as int]);
            }
            if servers[i].success {
                imported = imported + 1;
            } else {
                failed = failed + 1;
            }
        }
        proof {
            assert(servers@.subrange(0, n as int) =~= servers@);
        }
        ImportResult { imported_count: imported, failed_count: failed, servers }
    }
}

/// The text reported for a server stored under an unrecognized scope.
fn unknown_scope_message(scope: &String) -> (r: String)
    ensures
        r@ == "Unknown scope: "@ + scope@,
{
    let mut out: Vec<char> = Vec::new();
    append_str(&mut out, "Unknown scope: ");
    append_str(&mut out, scope.as_str());
    chars_to_string(&out)
}


/// What probing one server's connection requires of the embedding
/// application: run the command, or fetch the endpoint. The probe itself
/// is process or network input/output; which probe a server gets, and how
/// its observation reads as a result, are decided here.
#[derive(Debug, PartialEq, Eq)]
pub enum ConnectionProbe {
    /// Run the command with these arguments and environment and observe
    /// its exit and captured output.
    Stdio { command: String, args: Vec<String>, env: HashMap<String, String> },
    /// Fetch the endpoint and observe the response status.
    Sse { url: String },
}

/// A probe that failed before it was attempted: not a success, the given
/// message, and neither a response time nor details.
pub open spec fn immediate_probe_failure(t: &ConnectionTestResult, message: Seq<char>) -> bool {
    &&& !t.success
    &&& t.message@ == message
    &&& t.response_time_ms is None
    &&& t.details is None
}

/// The detail document of a command probe: the captured streams and the
/// exit code.
pub open spec fn stdio_details_text(out: Seq<char>, err: Seq<char>, code: Option<i32>) -> Seq<
    char,
> {
    "{\"stdout\":\""@ + escape_string(out) + "\",\"stderr\":\""@ + escape_string(err)
        + "\",\"status_code\":"@ + exit_code_chars(code) + "}"@
}

/// The detail document of an endpoint probe: the response status.
pub open spec fn sse_details_text(status: u16) -> Seq<char> {
    "{\"status_code\":"@ + dec_digits(status as nat) + "}"@
}

impl MCPService {
    /// Decide how a server's connection is probed. A stdio server with a
    /// command is run; an sse server with an endpoint is fetched; a server
    /// missing the one thing its transport needs, or naming a transport
    /// this service does not know, fails immediately with the exact
    /// message, and no probe is asked for.
    pub fn test_connection_plan(&self, server: MCPServer) -> (r: Result<
        ConnectionProbe,
        ConnectionTestResult,
    >)
        ensures
            server.transport@ == "stdio"@ && server.command is Some ==> r == Result::<
                ConnectionProbe,
                ConnectionTestResult,
            >::Ok(
                ConnectionProbe::Stdio {
                    command: server.command->Some_0,
                    args: server.args,
                    env: server.env,
                },
            ),
            server.transport@ == "stdio"@ && server.command is None ==> (r matches Err(t)
                && immediate_probe_failure(&t, "No command specified for stdio transport"@)),
            server.transport@ == "sse"@ && server.url is Some ==> r == Result::<
                ConnectionProbe,
                ConnectionTestResult,
            >::Ok(ConnectionProbe::Sse { url: server.url->Some_0 }),
            server.transport@ == "sse"@ && server.url is None ==> (r matches Err(t)
                && immediate_probe_failure(&t, "No URL specified for SSE transport"@)),
            server.transport@ != "stdio"@ && server.transport@ != "sse"@ ==> (r matches Err(t)
                && immediate_probe_failure(
                &t,
                "Unsupported transport type: "@ + server.transport@,
            )),
    {
        proof {
            reveal_strlit("stdio");
            reveal_strlit("sse");
            assert("stdio"@ != "sse"@) by {
                assert("stdio"@.len() == 5);
                assert("sse"@.len() == 3);
            }
        }
        let stdio_transport: String = "stdio".to_owned();
        let sse_transport: String = "sse".to_owned();
        if server.transport == stdio_transport {
            match server.command {
                Some(command) => Ok(
                    ConnectionProbe::Stdio { command, args: server.args, env: server.env },
                ),
                None => Err(
                    ConnectionTestResult {
                        success: false,
                        message: "No command specified for stdio transport".to_owned(),
                        response_time_ms: None,
                        details: None,
                    },
                ),
            }
        } else if server.transport == sse_transport {
            match server.url {
                Some(url) => Ok(ConnectionProbe::Sse { url }),
                None => Err(
                    ConnectionTestResult {
                        success: false,
                        message: "No URL specified for SSE transport".to_owned(),
                        response_time_ms: None,
                        details: None,
                    },
                ),
            }
        } else {
            let mut m: Vec<char> = Vec::new();
            append_str(&mut m, "Unsupported transport type: ");
            append_str(&mut m, server.transport.as_str());
            Err(
                ConnectionTestResult {
                    success: false,
                    message: chars_to_string(&m),
                    response_time_ms: None,
                    details: None,
                },
            )
        }
    }

    /// Read a command probe's observation as a result: the exit decides
    /// success; a failure carries the captured error stream; the details
    /// hold both streams and the exit code.
    pub fn stdio_test_result(
        &self,
        exit_success: bool,
        stdout: &String,
        stderr: &String,
        exit_code: Option<i32>,
        response_time_ms: u64,
    ) -> (r: ConnectionTestResult)
        ensures
            r.success == exit_success,
            exit_success ==> r.message@ == "Connection successful"@,
            !exit_success ==> r.message@ == "Connection failed: "@ + stderr@,
            r.response_time_ms == Some(response_time_ms),
            (r.details matches Some(d) && d@ == stdio_details_text(stdout@, stderr@, exit_code)),
    {
        let message: String = if exit_success {
            "Connection successful".to_owned()
        } else {
            let mut m: Vec<char> = Vec::new();
            append_str(&mut m, "Connection failed: ");
            append_str(&mut m, stderr.as_str());
            chars_to_string(&m)
        };
        let mut d: Vec<char> = Vec::new();
        append_str(&mut d, "{\"stdout\":\"");
        append_escaped(&mut d, stdout.as_str());
        append_str(&mut d, "\",\"stderr\":\"");
        append_escaped(&mut d, stderr.as_str());
        append_str(&mut d, "\",\"status_code\":");
        match exit_code {
            Some(v) => append_i32(&mut d, v),
            None => append_str(&mut d, "null"),
        }
        append_str(&mut d, "}");
        proof {
            assert(d@ =~= stdio_details_text(stdout@, stderr@, exit_code));
        }
        ConnectionTestResult {
            success: exit_success,
            message,
            response_time_ms: Some(response_time_ms),
            details: Some(chars_to_string(&d)),
        }
    }

    /// A command probe whose process could not even be run.
    pub fn stdio_spawn_failed(&self, error: &String) -> (r: ConnectionTestResult)
        ensures
            immediate_probe_failure(&r, "Failed to execute command: "@ + error@),
    {
        let mut m: Vec<char> = Vec::new();
        append_str(&mut m, "Failed to execute command: ");
        append_str(&mut m, error.as_str());
        ConnectionTestResult {
            success: false,
            message: chars_to_string(&m),
            response_time_ms: None,
            details: None,
        }
    }

    /// Read an endpoint probe's observation as a result: a status in the
    /// successful range decides success; the details hold the status.
    pub fn sse_test_result(&self, status_code: u16, response_time_ms: u64) -> (r:
        ConnectionTestResult)
        ensures
            r.success == (200 <= status_code < 300),
            r.message@ == "HTTP "@ + dec_digits(status_code as nat),
            r.response_time_ms == Some(response_time_ms),
            (r.details matches Some(d) && d@ == sse_details_text(status_code)),
    {
        let mut m: Vec<char> = Vec::new();
        append_str(&mut m, "HTTP ");
        append_u64_digits(&mut m, status_code as u64);
        let mut d: Vec<char> = Vec::new();
        append_str(&mut d, "{\"status_code\":");
        append_u64_digits(&mut d, status_code as u64);
        append_str(&mut d, "}");
        proof {
            assert(d@ =~= sse_details_text(status_code));
        }
        ConnectionTestResult {
            success: 200 <= status_code && status_code < 300,
            message: chars_to_string(&m),
            response_time_ms: Some(response_time_ms),
            details: Some(chars_to_string(&d)),
        }
    }

    /// An endpoint probe whose connection could not even be made.
    pub fn sse_connect_failed(&self, error: &String) -> (r: ConnectionTestResult)
        ensures
            immediate_probe_failure(&r, "Connection failed: "@ + error@),
    {
        let mut m: Vec<char> = Vec::new();
        append_str(&mut m, "Connection failed: ");
        append_str(&mut m, error.as_str());
        ConnectionTestResult {
            success: false,
            message: chars_to_string(&m),
            response_time_ms: None,
            details: None,
        }
    }
}

} // verus!
