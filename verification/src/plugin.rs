//! Configuration of the Nushell plugin.
use vstd::prelude::*;
use crate::api::ClientConfig;
use crate::error::{opt_text_is, ShellError};
use crate::text::{owned, trim, trimmed};

verus! {

/// Configuration for the Anytype plugin
#[derive(Debug, Clone)]
pub struct PluginConfig {
    /// Default space for commands when none specified
    pub default_space: Option<String>,
    /// Cache TTL in seconds
    pub cache_ttl: u64,
    /// Case-insensitive name resolution
    pub case_insensitive: bool,
    /// API endpoint
    pub api_endpoint: String,
}

/// Whether `c` is the default configuration: no default space, a five
/// minute cache, case-insensitive names and the local API endpoint.
pub open spec fn is_default_config(c: PluginConfig) -> bool {
    &&& c.default_space is None
    &&& c.cache_ttl == 300
    &&& c.case_insensitive
    &&& c.api_endpoint@ == "http://localhost:31009"@
}

impl Default for PluginConfig {
    fn default() -> (c: Self)
        ensures
            is_default_config(c),
    {
        Self {
            default_space: None,
            cache_ttl: 300,
            case_insensitive: true,
            api_endpoint: crate::text::owned("http://localhost:31009"),
        }
    }
}

impl PluginConfig {
    /// Load configuration from file or use defaults.  No configuration file
    /// is read yet, so this is the default configuration.
    pub fn load_or_default() -> (c: Self)
        ensures
            is_default_config(c),
    {
        Self::default()
    }
}

/// What reading the stored API key found.
#[derive(Debug, Clone, PartialEq)]
pub enum KeyFile {
    /// The user's configuration directory is unknown.
    NoConfigDir,
    /// The key file does not exist.
    Missing,
    /// The key file exists but could not be read, for the reason given.
    Unreadable(String),
    /// The key file holds this text.
    Read(String),
}

/// Whether `e` is a generic shell error with the given texts.
pub open spec fn generic_error(e: ShellError, error: Seq<char>, msg: Seq<char>, help: Option<Seq<char>>) -> bool {
    e matches ShellError::GenericError { error: er, msg: m, help: h } && er@ == error && m@ == msg
        && match help {
            Some(t) => opt_text_is(h, t),
            None => h is None,
        }
}

/// Load authentication token from the stored key file: its text without the
/// white space around it, which must not be empty; a missing or unreadable
/// file, or an unknown configuration directory, is an error.
pub fn load_auth_token(file: KeyFile) -> (r: Result<String, ShellError>)
    ensures
        match file {
            KeyFile::NoConfigDir => r matches Err(e) && generic_error(e, "Configuration error"@,
                "Could not determine config directory"@, None),
            KeyFile::Missing => r matches Err(e) && generic_error(e, "Authentication required"@,
                "No API key found"@, Some("Run `anytype auth create` to authenticate"@)),
            KeyFile::Unreadable(why) => r matches Err(e) && generic_error(e, "Failed to read API key"@,
                why@, Some("Check file permissions"@)),
            KeyFile::Read(text) => if trimmed(text@).len() == 0 {
                r matches Err(e) && generic_error(e, "Authentication required"@, "API key file is empty"@,
                    Some("Run `anytype auth create` to authenticate"@))
            } else {
                r matches Ok(k) && k@ == trimmed(text@)
            },
        },
{
    match file {
        KeyFile::NoConfigDir => Err(ShellError::GenericError {
            error: owned("Configuration error"),
            msg: owned("Could not determine config directory"),
            help: None,
        }),
        KeyFile::Missing => Err(ShellError::GenericError {
            error: owned("Authentication required"),
            msg: owned("No API key found"),
            help: Some(owned("Run `anytype auth create` to authenticate")),
        }),
        KeyFile::Unreadable(why) => Err(ShellError::GenericError {
            error: owned("Failed to read API key"),
            msg: why,
            help: Some(owned("Check file permissions")),
        }),
        KeyFile::Read(text) => {
            let key = trim(text.as_str());
            if key.as_str().is_empty() {
                Err(ShellError::GenericError {
                    error: owned("Authentication required"),
                    msg: owned("API key file is empty"),
                    help: Some(owned("Run `anytype auth create` to authenticate")),
                })
            } else {
                Ok(key)
            }
        },
    }
}

/// The configuration of the plugin's client: the configured endpoint, and
/// the defaults otherwise.
pub fn client_config(config: &PluginConfig) -> (c: ClientConfig)
    ensures
        c.base_url@ == config.api_endpoint@,
        c.timeout_seconds == 30,
        c.app_name@ == "anytype_rs"@,
{
    let d = ClientConfig::default();
    ClientConfig { base_url: config.api_endpoint.clone(), timeout_seconds: d.timeout_seconds, app_name: d.app_name }
}

} // verus!
