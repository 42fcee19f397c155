//! Service configuration, as plain values. Loading it from files and the
//! environment is input/output and lives with the embedding application;
//! the defaults, which the rest of the configuration is judged against,
//! are specified here exactly.

use vstd::prelude::*;
use vstd::string::StringExecFns;
use crate::launch::home_dir_string;

verus! {

/// The whole service configuration.
#[derive(Debug, Clone, PartialEq, Eq)]
pub struct AppConfig {
    pub server: ServerConfig,
    pub database: DatabaseConfig,
    pub cli: CliConfig,
    pub auth: AuthConfig,
    pub logging: LoggingConfig,
}

/// Where and how the server listens.
#[derive(Debug, Clone, PartialEq, Eq)]
pub struct ServerConfig {
    pub host: String,
    pub port: u16,
    pub max_connections: usize,
    /// Seconds.
    pub request_timeout: u64,
}

/// The persistence layer's location and limits.
#[derive(Debug, Clone, PartialEq, Eq)]
pub struct DatabaseConfig {
    pub path: String,
    pub max_connections: u32,
    /// Seconds.
    pub connection_timeout: u64,
}

/// How the external tool is found and bounded.
#[derive(Debug, Clone, PartialEq, Eq)]
pub struct CliConfig {
    /// An explicitly configured binary location; probed first when set.
    pub binary_path: Option<String>,
    pub projects_dir: String,
    pub max_concurrent_sessions: usize,
    /// Seconds.
    pub session_timeout: u64,
}

/// Authentication settings.
#[derive(Debug, Clone, PartialEq, Eq)]
pub struct AuthConfig {
    pub enabled: bool,
    pub jwt_secret: String,
    /// Seconds.
    pub token_expiry: u64,
    pub api_keys: Vec<String>,
}

/// Logging settings.
#[derive(Debug, Clone, PartialEq, Eq)]
pub struct LoggingConfig {
    pub level: String,
    pub file: Option<String>,
    pub json_format: bool,
}

impl CliConfig {
    /// The default tool configuration for a given home directory.
    pub fn default_with_home(home: &String) -> (r: CliConfig)
        ensures
            r.binary_path is None,
            r.projects_dir@ == home@ + "/.ccagent/projects"@,
            r.max_concurrent_sessions == 10,
            r.session_timeout == 3600,
    {
        CliConfig {
            binary_path: None,
            projects_dir: home.clone().concat("/.ccagent/projects"),
            max_concurrent_sessions: 10,
            session_timeout: 3600,
        }
    }
}

impl Default for CliConfig {
    /// The defaults, rooted in the machine's home directory (empty when
    /// none is known; only the home-independent fields are promised).
    fn default() -> (r: CliConfig)
        ensures
            r.binary_path is None,
            r.max_concurrent_sessions == 10,
            r.session_timeout == 3600,
    {
        let home = match home_dir_string() {
            Some(h) => h,
            None => String::new(),
        };
        CliConfig::default_with_home(&home)
    }
}

impl AppConfig {
    /// The default configuration for a given home directory, every field
    /// pinned down.
    pub fn default_with_home(home: &String) -> (r: AppConfig)
        ensures
            r.server.host@ == "127.0.0.1"@,
            r.server.port == 3000,
            r.server.max_connections == 1000,
            r.server.request_timeout == 30,
            r.database.path@ == home@ + "/.opcode/api-server.db"@,
            r.database.max_connections == 10,
            r.database.connection_timeout == 30,
            r.cli.binary_path is None,
            r.cli.projects_dir@ == home@ + "/.ccagent/projects"@,
            r.cli.max_concurrent_sessions == 10,
            r.cli.session_timeout == 3600,
            !r.auth.enabled,
            r.auth.jwt_secret@ == "your-secret-key-change-in-production"@,
            r.auth.token_expiry == 86400,
            r.auth.api_keys@.len() == 0,
            r.logging.level@ == "info"@,
            r.logging.file is None,
            !r.logging.json_format,
    {
        AppConfig {
            server: ServerConfig {
                host: "127.0.0.1".to_owned(),
                port: 3000,
                max_connections: 1000,
                request_timeout: 30,
            },
            database: DatabaseConfig {
                path: home.clone().concat("/.opcode/api-server.db"),
                max_connections: 10,
                connection_timeout: 30,
            },
            cli: CliConfig::default_with_home(home),
            auth: AuthConfig {
                enabled: false,
                jwt_secret: "your-secret-key-change-in-production".to_owned(),
                token_expiry: 86400,
                api_keys: Vec::new(),
            },
            logging: LoggingConfig {
                level: "info".to_owned(),
                file: None,
                json_format: false,
            },
        }
    }
}

impl Default for AppConfig {
    /// The defaults, rooted in the machine's home directory (empty when
    /// none is known; only the home-independent fields are promised).
    fn default() -> (r: AppConfig)
        ensures
            r.server.host@ == "127.0.0.1"@,
            r.server.port == 3000,
            r.server.max_connections == 1000,
            r.server.request_timeout == 30,
            r.database.max_connections == 10,
            r.database.connection_timeout == 30,
            r.cli.binary_path is None,
            r.cli.max_concurrent_sessions == 10,
            r.cli.session_timeout == 3600,
            !r.auth.enabled,
            r.auth.token_expiry == 86400,
            r.auth.api_keys@.len() == 0,
            r.logging.level@ == "info"@,
            r.logging.file is None,
            !r.logging.json_format,
    {
        let home = match home_dir_string() {
            Some(h) => h,
            None => String::new(),
        };
        AppConfig::default_with_home(&home)
    }
}

} // verus!
