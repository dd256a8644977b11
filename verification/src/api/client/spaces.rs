//! Spaces module
//!
//! Handles space management operations.
use vstd::prelude::*;
use crate::api::types::Pagination;
use crate::json::JsonValue;

verus! {

/// Space information
#[derive(Debug, PartialEq)]
pub struct Space {
    pub id: String,
    pub name: String,
    pub object: Option<String>,
    pub description: Option<String>,
    pub icon: Option<JsonValue>,
    pub gateway_url: Option<String>,
    pub network_id: Option<String>,
}

/// Response for listing spaces
#[derive(Debug, PartialEq)]
pub struct ListSpacesResponse {
    pub data: Vec<Space>,
    pub pagination: Pagination,
}

/// Request to create a new space
#[derive(Debug, Clone, PartialEq)]
pub struct CreateSpaceRequest {
    pub name: String,
    pub description: Option<String>,
}

/// Response when creating a space
#[derive(Debug, PartialEq)]
pub struct CreateSpaceResponse {
    pub space: Space,
}

/// Request to update a space
#[derive(Debug, Clone, PartialEq)]
pub struct UpdateSpaceRequest {
    pub name: Option<String>,
    pub description: Option<String>,
}

/// The path the spaces are listed and created at.
pub fn spaces_path() -> (p: &'static str)
    ensures
        p@ == "/v1/spaces"@,
{
    "/v1/spaces"
}

/// The path a space is read and updated at.
pub fn space_path(space_id: &str) -> (p: String)
    ensures
        p@ == "/v1/spaces/"@ + space_id@,
{
    crate::text::concat("/v1/spaces/", space_id)
}

} // verus!
