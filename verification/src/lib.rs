//! Verified core of an Anytype API client and its Nushell plugin.
pub mod api;
pub mod cache;
pub mod cli;
pub mod commands;
pub mod error;
pub mod json;
pub mod plugin;
pub mod text;
pub mod value;

pub use error::AnytypeError;
pub use plugin::PluginConfig;
pub use value::AnytypeValue;
