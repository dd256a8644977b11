//! `tags`: the tags of a property.
use vstd::prelude::*;

verus! {

/// The arguments of `tags`.
#[derive(Debug, Clone, PartialEq)]
pub struct TagsArgs {
    pub command: TagsCommand,
}

/// The subcommands of `tags`.  A colour that is not given is grey.
#[derive(Debug, Clone, PartialEq)]
pub enum TagsCommand {
    /// List tags for a specific property in a space (20 where no limit is given)
    List { space_id: String, property_id: String, limit: u32 },
    /// Create a new tag for a property in a space
    Create { space_id: String, property_id: String, name: String, color: String },
    /// Get details of a specific tag
    Get { space_id: String, property_id: String, tag_id: String },
    /// Update an existing tag in a space
    Update { space_id: String, property_id: String, tag_id: String, name: String, color: String },
    /// Delete a tag from a property in a space
    Delete { space_id: String, property_id: String, tag_id: String },
}

} // verus!
