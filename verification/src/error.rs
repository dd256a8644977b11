//! Errors of the Anytype client, and how the plugin reports them to the shell.
use vstd::prelude::*;

verus! {

#[verifier::external_type_specification]
#[verifier::external_body]
pub struct ExReqwestError(reqwest::Error);

#[verifier::external_type_specification]
#[verifier::external_body]
pub struct ExSerdeJsonError(serde_json::Error);

/// Errors of the Anytype client
#[allow(inconsistent_fields)]
#[derive(Debug)]
pub enum AnytypeError {
    /// The API refused the credentials, or none were set.
    Auth { message: String },
    /// The HTTP request failed.
    Http { source: reqwest::Error },
    /// The API answered with an error.
    Api { message: String },
    /// A value could not be serialized or deserialized.
    Serialization { source: serde_json::Error },
    /// The API answered with something unexpected.
    InvalidResponse { message: String },
}

/// How the plugin reports an error to the shell.
#[derive(Debug, Clone, PartialEq)]
pub enum ShellError {
    IOError { msg: String },
    NetworkFailure { msg: String },
    GenericError { error: String, msg: String, help: Option<String> },
}

/// `Display` of `reqwest::Error`.  Its text depends on what is inside the
/// error, which is opaque here, so nothing is stated of it.
#[verifier::external_body]
fn reqwest_error_text(e: &reqwest::Error) -> String {
    format!("{}", e)
}

/// `Display` of `serde_json::Error`.  Its text depends on what is inside the
/// error, which is opaque here, so nothing is stated of it.
#[verifier::external_body]
fn serde_json_error_text(e: &serde_json::Error) -> String {
    format!("{}", e)
}

/// Whether `prefix` begins `s`.
pub open spec fn starts_with(s: Seq<char>, prefix: Seq<char>) -> bool {
    prefix.len() <= s.len() && s.subrange(0, prefix.len() as int) == prefix
}

/// What the shell is told of an error: authentication failures as I/O
/// errors that say how to log in, HTTP failures as network failures, and
/// the rest as generic errors with a hint.
pub open spec fn reports(err: AnytypeError, r: ShellError) -> bool {
    match err {
        AnytypeError::Auth { message } => match r {
            ShellError::IOError { msg } => msg@ == "Authentication failed: "@ + message@
                + ". Run `anytype auth create` to authenticate"@,
            _ => false,
        },
        AnytypeError::Http { .. } => match r {
            ShellError::NetworkFailure { msg } => starts_with(msg@, "HTTP request failed: "@),
            _ => false,
        },
        AnytypeError::Api { message } => match r {
            ShellError::GenericError { error, msg, help } => error@ == "API error"@ && msg@ == message@
                && opt_text_is(help, "Check the Anytype API server status and logs"@),
            _ => false,
        },
        AnytypeError::Serialization { .. } => match r {
            ShellError::GenericError { error, msg, help } => error@ == "Serialization error"@
                && starts_with(msg@, "Failed to serialize/deserialize: "@)
                && opt_text_is(help, "Check that the data format is correct"@),
            _ => false,
        },
        AnytypeError::InvalidResponse { message } => match r {
            ShellError::GenericError { error, msg, help } => error@ == "Invalid response"@ && msg@ == message@
                && opt_text_is(help, "The API returned an unexpected response format"@),
            _ => false,
        },
    }
}

/// Whether an optional text is present and holds `t`.
pub open spec fn opt_text_is(o: Option<String>, t: Seq<char>) -> bool {
    match o {
        Some(s) => s@ == t,
        None => false,
    }
}

/// Convert AnytypeError to ShellError with helpful messages
pub fn convert_anytype_error(err: AnytypeError) -> (r: ShellError)
    ensures
        reports(err, r),
{
    match err {
        AnytypeError::Auth { message } => ShellError::IOError {
            msg: crate::text::concat3(
                "Authentication failed: ",
                message.as_str(),
                ". Run `anytype auth create` to authenticate",
            ),
        },
        AnytypeError::Http { source } => {
            let text = reqwest_error_text(&source);
            let msg = crate::text::concat("HTTP request failed: ", text.as_str());
            proof {
                assert(msg@.subrange(0, "HTTP request failed: "@.len() as int) =~= "HTTP request failed: "@);
            }
            ShellError::NetworkFailure { msg }
        },
        AnytypeError::Api { message } => ShellError::GenericError {
            error: crate::text::owned("API error"),
            msg: message,
            help: Some(crate::text::owned("Check the Anytype API server status and logs")),
        },
        AnytypeError::Serialization { source } => {
            let text = serde_json_error_text(&source);
            let msg = crate::text::concat("Failed to serialize/deserialize: ", text.as_str());
            proof {
                assert(msg@.subrange(0, "Failed to serialize/deserialize: "@.len() as int)
                    =~= "Failed to serialize/deserialize: "@);
            }
            ShellError::GenericError {
                error: crate::text::owned("Serialization error"),
                msg,
                help: Some(crate::text::owned("Check that the data format is correct")),
            }
        },
        AnytypeError::InvalidResponse { message } => ShellError::GenericError {
            error: crate::text::owned("Invalid response"),
            msg: message,
            help: Some(crate::text::owned("The API returned an unexpected response format")),
        },
    }
}

} // verus!
