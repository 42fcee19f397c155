//! The uniform envelope for successful responses. The timestamp is the
//! current time, taken through a trusted clock call; everything else is
//! pinned down exactly.

use vstd::prelude::*;

verus! {

/// A successful response: the payload, an optional human-readable message,
/// and when the response was produced.
#[derive(Debug)]
pub struct ApiResponse<T> {
    pub success: bool,
    pub data: Option<T>,
    pub message: Option<String>,
    pub timestamp: String,
}

/// Relies on `chrono::Utc::now().to_rfc3339`: the current time; nothing is
/// promised of the text.
#[verifier::external_body]
fn now_rfc3339() -> (r: String) {
    chrono::Utc::now().to_rfc3339()
}

impl<T> ApiResponse<T> {
    /// A successful response carrying `data` and no message.
    pub fn success(data: T) -> (r: Self)
        ensures
            r.success,
            r.data == Some(data),
            r.message is None,
    {
        ApiResponse { success: true, data: Some(data), message: None, timestamp: now_rfc3339() }
    }

    /// A successful response carrying `data` and a message.
    pub fn success_with_message(data: T, message: String) -> (r: Self)
        ensures
            r.success,
            r.data == Some(data),
            r.message == Some(message),
    {
        ApiResponse {
            success: true,
            data: Some(data),
            message: Some(message),
            timestamp: now_rfc3339(),
        }
    }
}

impl ApiResponse<()> {
    /// A successful response with neither payload nor message.
    pub fn success_no_data() -> (r: Self)
        ensures
            r.success,
            r.data is None,
            r.message is None,
    {
        ApiResponse { success: true, data: None, message: None, timestamp: now_rfc3339() }
    }

    /// A successful response with a message only.
    pub fn success_with_message_only(message: String) -> (r: Self)
        ensures
            r.success,
            r.data is None,
            r.message == Some(message),
    {
        ApiResponse { success: true, data: None, message: Some(message), timestamp: now_rfc3339() }
    }
}

/// A simple success envelope around `data`.
pub fn success<T>(data: T) -> (r: ApiResponse<T>)
    ensures
        r.success,
        r.data == Some(data),
        r.message is None,
{
    ApiResponse::success(data)
}

/// A success envelope around `data`, with a message.
pub fn success_with_message<T>(data: T, message: String) -> (r: ApiResponse<T>)
    ensures
        r.success,
        r.data == Some(data),
        r.message == Some(message),
{
    ApiResponse::success_with_message(data, message)
}

/// A success envelope with no payload.
pub fn success_no_data() -> (r: ApiResponse<()>)
    ensures
        r.success,
        r.data is None,
        r.message is None,
{
    ApiResponse::success_no_data()
}

/// A success envelope with a message only.
pub fn success_message(message: String) -> (r: ApiResponse<()>)
    ensures
        r.success,
        r.data is None,
        r.message == Some(message),
{
    ApiResponse::success_with_message_only(message)
}

} // verus!
