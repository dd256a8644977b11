//! Objects module
//!
//! Handles object operations.
use vstd::prelude::*;
use crate::json::JsonValue;

verus! {

/// Object information
#[derive(Debug, PartialEq)]
pub struct Object {
    pub id: String,
    pub name: Option<String>,
    pub space_id: Option<String>,
    /// The key of the object's type (e.g. "page")
    pub object: Option<String>,
    pub properties: JsonValue,
}

/// Request to create an object
#[derive(Debug, PartialEq)]
pub struct CreateObjectRequest {
    pub type_key: String,
    pub name: Option<String>,
    pub properties: Option<JsonValue>,
}

/// Request to update an object
#[derive(Debug, PartialEq)]
pub struct UpdateObjectRequest {
    pub name: Option<String>,
    pub markdown: Option<String>,
    pub properties: Option<JsonValue>,
}

/// The path the objects of a space are listed and created at.
pub fn objects_path(space_id: &str) -> (p: String)
    ensures
        p@ == "/v1/spaces/"@ + space_id@ + "/objects"@,
{
    crate::text::concat3("/v1/spaces/", space_id, "/objects")
}

/// The path an object of a space is read, updated and deleted at.
pub fn object_path(space_id: &str, object_id: &str) -> (p: String)
    ensures
        p@ == "/v1/spaces/"@ + space_id@ + "/objects/"@ + object_id@,
{
    let p = crate::text::concat3("/v1/spaces/", space_id, "/objects/");
    crate::text::concat(p.as_str(), object_id)
}

} // verus!
