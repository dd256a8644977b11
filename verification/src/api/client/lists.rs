//! Lists module
//!
//! Handles list management operations.
use vstd::prelude::*;

verus! {

/// Request to add objects to a list
#[derive(Debug, Clone, PartialEq)]
pub struct AddListObjectsRequest {
    /// Array of object IDs to add to the list
    pub object_ids: Vec<String>,
}

/// Response when adding objects to a list
#[derive(Debug, Clone, PartialEq)]
pub struct AddListObjectsResponse {
    /// Confirmation message
    pub message: String,
    /// List of object IDs that were successfully added
    pub added_objects: Vec<String>,
}

/// The path objects are added to a list at.
pub fn list_objects_path(space_id: &str, list_id: &str) -> (p: String)
    ensures
        p@ == "/v1/spaces/"@ + space_id@ + "/lists/"@ + list_id@ + "/objects"@,
{
    let p = crate::text::concat3("/v1/spaces/", space_id, "/lists/");
    crate::text::concat3(p.as_str(), list_id, "/objects")
}

/// The request that adds `object_ids` to a list.
pub fn add_list_objects_request(object_ids: Vec<String>) -> (r: AddListObjectsRequest)
    ensures
        r.object_ids == object_ids,
{
    AddListObjectsRequest { object_ids }
}

/// The path the views of a list are read at.
pub fn list_views_path(space_id: &str, list_id: &str) -> (p: String)
    ensures
        p@ == "/v1/spaces/"@ + space_id@ + "/lists/"@ + list_id@ + "/views"@,
{
    let p = crate::text::concat3("/v1/spaces/", space_id, "/lists/");
    crate::text::concat3(p.as_str(), list_id, "/views")
}

} // verus!
