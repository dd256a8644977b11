//! Anytype API client modules
//!
//! This module is organized to match the official API reference structure.
//! The HTTP exchange itself lives with the program; what it sends where, and
//! how it reads a failed answer, is decided here.
pub mod lists;
pub mod members;
pub mod objects;
pub mod properties;
pub mod search;
pub mod spaces;
pub mod tags;
pub mod templates;
pub mod types;

use vstd::prelude::*;
use crate::error::AnytypeError;

verus! {

pub const DEFAULT_BASE_URL: &'static str = "http://localhost:31009";

/// Configuration for the Anytype client
#[derive(Debug, Clone)]
pub struct ClientConfig {
    pub base_url: String,
    pub timeout_seconds: u64,
    pub app_name: String,
}

impl Default for ClientConfig {
    fn default() -> (c: Self)
        ensures
            c.base_url@ == "http://localhost:31009"@,
            c.timeout_seconds == 30,
            c.app_name@ == "anytype_rs"@,
    {
        Self {
            base_url: crate::text::owned(DEFAULT_BASE_URL),
            timeout_seconds: 30,
            app_name: crate::text::owned("anytype_rs"),
        }
    }
}

/// The path an authentication challenge is created at.
pub fn challenges_path() -> (p: &'static str)
    ensures
        p@ == "/v1/auth/challenges"@,
{
    "/v1/auth/challenges"
}

/// The path an API key is created at, from a challenge and its code.
pub fn api_keys_path() -> (p: &'static str)
    ensures
        p@ == "/v1/auth/api_keys"@,
{
    "/v1/auth/api_keys"
}

/// The message of the error raised when a request needs the API key and none is set.
pub open spec fn missing_key_message() -> Seq<char> {
    "API key not set. Call set_api_key() first."@
}

/// The API key to send with an authenticated request: the one set, or an
/// authentication error where none is.
pub fn api_key_for_request(api_key: &Option<String>) -> (r: Result<String, AnytypeError>)
    ensures
        match *api_key {
            Some(k) => r matches Ok(v) && v@ == k@,
            None => r matches Err(AnytypeError::Auth { message }) && message@ == missing_key_message(),
        },
{
    match api_key {
        Some(k) => Ok(k.clone()),
        None => Err(AnytypeError::Auth { message: crate::text::owned("API key not set. Call set_api_key() first.") }),
    }
}

/// The full URL of an API path.
pub fn request_url(config: &ClientConfig, path: &str) -> (url: String)
    ensures
        url@ == config.base_url@ + path@,
{
    crate::text::concat(config.base_url.as_str(), path)
}

/// The error for a failed answer whose body could not be read as an API
/// error: the status and why the body could not be read.
pub fn unreadable_error(status: &str, detail: &str) -> (e: AnytypeError)
    ensures
        e matches AnytypeError::Api { message } && message@ == "HTTP "@ + status@ + " - "@ + detail@,
{
    let head = crate::text::concat3("HTTP ", status, " - ");
    AnytypeError::Api { message: crate::text::concat(head.as_str(), detail) }
}

/// The error for a failed answer whose body carried `message`: an
/// authentication error for the statuses 401 and 403, an API error otherwise.
pub fn error_for_status(status: u16, message: String) -> (e: AnytypeError)
    ensures
        (status == 401 || status == 403) ==> (e matches AnytypeError::Auth { message: m } && m == message),
        !(status == 401 || status == 403) ==> (e matches AnytypeError::Api { message: m } && m == message),
{
    if status == 401 || status == 403 {
        AnytypeError::Auth { message }
    } else {
        AnytypeError::Api { message }
    }
}

} // verus!
