//! `spaces`: the spaces, and the objects in them.
use vstd::prelude::*;
use crate::api::UpdateSpaceRequest;
use crate::text::owned;

verus! {

/// The arguments of `spaces`.
#[derive(Debug, Clone, PartialEq)]
pub struct SpacesArgs {
    pub command: SpacesCommand,
}

/// The subcommands of `spaces`.
#[derive(Debug, Clone, PartialEq)]
pub enum SpacesCommand {
    /// List all spaces
    List,
    /// Get details of a specific space
    Get { space_id: String },
    /// Create a new space
    Create { name: String, description: Option<String> },
    /// Update an existing space
    Update { space_id: String, name: Option<String>, description: Option<String> },
    /// List objects in a space (10 where no limit is given)
    Objects { space_id: String, limit: u32 },
    /// Create a new object in a space (a page where no type is given)
    CreateObject { space_id: String, name: String, type_key: String },
}

/// The request updating a space, which needs a new name or a new description.
pub fn update_request(name: Option<String>, description: Option<String>) -> (r: Result<UpdateSpaceRequest, String>)
    ensures
        (name is None && description is None) ==> (r matches Err(e)
            && e@ == "At least one field (name or description) must be provided to update"@),
        !(name is None && description is None) ==> r == Ok::<UpdateSpaceRequest, String>(
            UpdateSpaceRequest { name, description },
        ),
{
    if name.is_none() && description.is_none() {
        return Err(owned("At least one field (name or description) must be provided to update"));
    }
    Ok(UpdateSpaceRequest { name, description })
}

} // verus!
