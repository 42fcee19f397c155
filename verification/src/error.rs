//! The service's error taxonomy, with the exact texts, machine codes and
//! status codes each error is reported with. Errors of outside libraries
//! are carried as their rendered text, mapped by the embedding application.

use vstd::prelude::*;
use crate::encode::{append_escaped, append_str, chars_to_string, escape_string};

verus! {

/// The serialized shape of an error on the wire.
#[derive(Debug, Clone, PartialEq, Eq)]
pub struct ApiError {
    /// A stable machine-readable code.
    pub code: String,
    /// A human-readable message.
    pub message: String,
    /// Extra detail, as a serialized document, if any.
    pub details: Option<String>,
}

/// Everything that can go wrong in the service, by kind.
#[derive(Debug)]
pub enum AppError {
    NotFound { resource: String, id: String },
    InvalidInput { field: String, message: String },
    DatabaseError(String),
    CliError(String),
    AgentError(String),
    McpError(String),
    InternalError(String),
    Unauthorized,
    Forbidden,
}

/// What `str::to_uppercase` yields, as a pure function of the characters.
pub uninterp spec fn upper_of(s: Seq<char>) -> Seq<char>;

/// Relies on `str::to_uppercase`: the result depends on the characters
/// alone; an empty string stays empty.
#[verifier::external_body]
fn to_upper(s: &str) -> (r: String)
    ensures
        r@ == upper_of(s@),
        s@.len() == 0 ==> r@.len() == 0,
{
    s.to_uppercase()
}

/// The full text of each error.
pub open spec fn error_text(e: &AppError) -> Seq<char> {
    match e {
        AppError::NotFound { resource, id } => resource@ + " with id "@ + id@ + " not found"@,
        AppError::InvalidInput { field, message } => "Invalid input for field '"@ + field@ + "': "@
            + message@,
        AppError::DatabaseError(m) => "Database error: "@ + m@,
        AppError::CliError(m) => "Agent CLI error: "@ + m@,
        AppError::AgentError(m) => "Agent error: "@ + m@,
        AppError::McpError(m) => "MCP error: "@ + m@,
        AppError::InternalError(m) => "Internal error: "@ + m@,
        AppError::Unauthorized => "Unauthorized"@,
        AppError::Forbidden => "Forbidden"@,
    }
}

/// The machine code of each error.
pub open spec fn error_code_text(e: &AppError) -> Seq<char> {
    match e {
        AppError::NotFound { resource, .. } => upper_of(resource@) + "_NOT_FOUND"@,
        AppError::InvalidInput { .. } => "INVALID_INPUT"@,
        AppError::DatabaseError(_) => "DATABASE_ERROR"@,
        AppError::CliError(_) => "CLI_ERROR"@,
        AppError::AgentError(_) => "AGENT_ERROR"@,
        AppError::McpError(_) => "MCP_ERROR"@,
        AppError::InternalError(_) => "INTERNAL_ERROR"@,
        AppError::Unauthorized => "UNAUTHORIZED"@,
        AppError::Forbidden => "FORBIDDEN"@,
    }
}

/// The message each error shows callers: internal and database failures
/// are not spelled out, the rest carry their full text.
pub open spec fn public_text(e: &AppError) -> Seq<char> {
    match e {
        AppError::DatabaseError(_) => "Database operation failed"@,
        AppError::InternalError(_) => "An internal error occurred"@,
        AppError::Unauthorized => "Authentication required"@,
        AppError::Forbidden => "Access denied"@,
        _ => error_text(e),
    }
}

/// The detail document each error carries, if any: what was not found, or
/// which field was invalid.
pub open spec fn error_details_text(e: &AppError) -> Option<Seq<char>> {
    match e {
        AppError::NotFound { resource, id } => Some(
            "{\"resource\":\""@ + escape_string(resource@) + "\",\"id\":\""@ + escape_string(id@)
                + "\"}"@,
        ),
        AppError::InvalidInput { field, .. } => Some(
            "{\"field\":\""@ + escape_string(field@) + "\"}"@,
        ),
        _ => None,
    }
}

/// The status code each error is reported with.
pub open spec fn error_status(e: &AppError) -> u16 {
    match e {
        AppError::NotFound { .. } => 404,
        AppError::InvalidInput { .. } => 400,
        AppError::DatabaseError(_) => 500,
        AppError::CliError(_) => 502,
        AppError::AgentError(_) => 422,
        AppError::McpError(_) => 502,
        AppError::InternalError(_) => 500,
        AppError::Unauthorized => 401,
        AppError::Forbidden => 403,
    }
}

impl AppError {
    /// The full text of the error.
    pub fn text(&self) -> (r: String)
        ensures
            r@ == error_text(self),
    {
        let mut out: Vec<char> = Vec::new();
        match self {
            AppError::NotFound { resource, id } => {
                append_str(&mut out, resource.as_str());
                append_str(&mut out, " with id ");
                append_str(&mut out, id.as_str());
                append_str(&mut out, " not found");
            },
            AppError::InvalidInput { field, message } => {
                append_str(&mut out, "Invalid input for field '");
                append_str(&mut out, field.as_str());
                append_str(&mut out, "': ");
                append_str(&mut out, message.as_str());
            },
            AppError::DatabaseError(m) => {
                append_str(&mut out, "Database error: ");
                append_str(&mut out, m.as_str());
            },
            AppError::CliError(m) => {
                append_str(&mut out, "Agent CLI error: ");
                append_str(&mut out, m.as_str());
            },
            AppError::AgentError(m) => {
                append_str(&mut out, "Agent error: ");
                append_str(&mut out, m.as_str());
            },
            AppError::McpError(m) => {
                append_str(&mut out, "MCP error: ");
                append_str(&mut out, m.as_str());
            },
            AppError::InternalError(m) => {
                append_str(&mut out, "Internal error: ");
                append_str(&mut out, m.as_str());
            },
            AppError::Unauthorized => {
                append_str(&mut out, "Unauthorized");
            },
            AppError::Forbidden => {
                append_str(&mut out, "Forbidden");
            },
        }
        proof {
            assert(out@ =~= error_text(self));
        }
        chars_to_string(&out)
    }

    /// The stable machine code of the error.
    pub fn code(&self) -> (r: String)
        ensures
            r@ == error_code_text(self),
    {
        match self {
            AppError::NotFound { resource, .. } => {
                let mut out: Vec<char> = Vec::new();
                let upper = to_upper(resource.as_str());
                append_str(&mut out, upper.as_str());
                append_str(&mut out, "_NOT_FOUND");
                proof {
                    assert(out@ =~= error_code_text(self));
                }
                chars_to_string(&out)
            },
            AppError::InvalidInput { .. } => "INVALID_INPUT".to_owned(),
            AppError::DatabaseError(_) => "DATABASE_ERROR".to_owned(),
            AppError::CliError(_) => "CLI_ERROR".to_owned(),
            AppError::AgentError(_) => "AGENT_ERROR".to_owned(),
            AppError::McpError(_) => "MCP_ERROR".to_owned(),
            AppError::InternalError(_) => "INTERNAL_ERROR".to_owned(),
            AppError::Unauthorized => "UNAUTHORIZED".to_owned(),
            AppError::Forbidden => "FORBIDDEN".to_owned(),
        }
    }

    /// The message shown to callers.
    pub fn public_message(&self) -> (r: String)
        ensures
            r@ == public_text(self),
    {
        match self {
            AppError::DatabaseError(_) => "Database operation failed".to_owned(),
            AppError::InternalError(_) => "An internal error occurred".to_owned(),
            AppError::Unauthorized => "Authentication required".to_owned(),
            AppError::Forbidden => "Access denied".to_owned(),
            _ => self.text(),
        }
    }

    /// The status code the error is reported with.
    pub fn status_code(&self) -> (r: u16)
        ensures
            r == error_status(self),
    {
        match self {
            AppError::NotFound { .. } => 404,
            AppError::InvalidInput { .. } => 400,
            AppError::DatabaseError(_) => 500,
            AppError::CliError(_) => 502,
            AppError::AgentError(_) => 422,
            AppError::McpError(_) => 502,
            AppError::InternalError(_) => 500,
            AppError::Unauthorized => 401,
            AppError::Forbidden => 403,
        }
    }

    /// The detail document of the error, if it carries one.
    pub fn details(&self) -> (r: Option<String>)
        ensures
            r is Some <==> error_details_text(self) is Some,
            r matches Some(d) ==> error_details_text(self) == Some(d@),
    {
        match self {
            AppError::NotFound { resource, id } => {
                let mut out: Vec<char> = Vec::new();
                append_str(&mut out, "{\"resource\":\"");
                append_escaped(&mut out, resource.as_str());
                append_str(&mut out, "\",\"id\":\"");
                append_escaped(&mut out, id.as_str());
                append_str(&mut out, "\"}");
                proof {
                    assert(error_details_text(self) matches Some(d) && d =~= out@);
                }
                Some(chars_to_string(&out))
            },
            AppError::InvalidInput { field, .. } => {
                let mut out: Vec<char> = Vec::new();
                append_str(&mut out, "{\"field\":\"");
                append_escaped(&mut out, field.as_str());
                append_str(&mut out, "\"}");
                proof {
                    assert(error_details_text(self) matches Some(d) && d =~= out@);
                }
                Some(chars_to_string(&out))
            },
            _ => None,
        }
    }

    /// The serialized shape of the error: its code, its public message, and
    /// its detail document where it carries one.
    pub fn to_api_error(&self) -> (r: ApiError)
        ensures
            r.code@ == error_code_text(self),
            r.message@ == public_text(self),
            r.details is Some <==> error_details_text(self) is Some,
            r.details matches Some(d) ==> error_details_text(self) == Some(d@),
    {
        ApiError { code: self.code(), message: self.public_message(), details: self.details() }
    }
}

} // verus!
