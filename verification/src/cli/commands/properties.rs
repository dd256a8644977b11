//! `properties`: the properties of a space.
use vstd::prelude::*;

verus! {

/// The arguments of `properties`.
#[derive(Debug, Clone, PartialEq)]
pub struct PropertiesArgs {
    pub command: PropertiesCommand,
}

/// The subcommands of `properties`.  A format that is not given is text.
#[derive(Debug, Clone, PartialEq)]
pub enum PropertiesCommand {
    /// List properties in a space (20 where no limit is given)
    List { space_id: String, limit: u32 },
    /// Get details of a specific property
    Get { space_id: String, property_id: String },
    /// Create a new property in a space
    Create { space_id: String, name: String, format: String },
    /// Update an existing property in a space
    Update { space_id: String, property_id: String, name: String, format: String },
}

} // verus!
