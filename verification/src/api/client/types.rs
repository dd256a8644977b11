//! Type management module
//!
//! Handles type management operations such as creating, updating, and deleting object types.
use vstd::prelude::*;
use crate::api::client::properties::PropertyFormat;
use crate::api::types::{Icon, Layout, Pagination};

verus! {

/// Enhanced icon information for types
#[derive(Debug, Clone, PartialEq)]
pub struct TypeIcon {
    pub color: Option<String>,
    pub format: Option<String>,
    pub name: Option<String>,
    pub emoji: Option<String>,
}

/// Property information for types
#[derive(Debug, Clone, PartialEq)]
pub struct TypeProperty {
    pub format: String,
    pub id: String,
    pub key: String,
    pub name: String,
    pub object: String,
}

/// Type information
#[derive(Debug, Clone, PartialEq)]
pub struct Type {
    pub archived: Option<bool>,
    pub icon: Option<TypeIcon>,
    pub id: String,
    pub key: String,
    pub layout: Option<String>,
    pub name: String,
    pub object: String,
    pub plural_name: Option<String>,
    pub properties: Vec<TypeProperty>,
}

/// Response for listing types
#[derive(Debug, Clone, PartialEq)]
pub struct ListTypesResponse {
    pub data: Vec<Type>,
    pub pagination: Pagination,
}

/// A property of a type being created or updated
#[derive(Debug, Clone, PartialEq)]
pub struct CreateTypeProperty {
    pub format: PropertyFormat,
    pub key: String,
    pub name: String,
}

/// Request to create a type
#[derive(Debug, Clone, PartialEq)]
pub struct CreateTypeRequest {
    pub icon: Icon,
    pub key: String,
    pub layout: Layout,
    pub name: String,
    pub plural_name: String,
    pub properties: Vec<CreateTypeProperty>,
}

/// Request to update a type
#[derive(Debug, Clone, PartialEq)]
pub struct UpdateTypeRequest {
    pub icon: Icon,
    pub key: String,
    pub layout: Layout,
    pub name: String,
    pub plural_name: String,
    pub properties: Vec<CreateTypeProperty>,
}

/// The path the types of a space are listed and created at.
pub fn types_path(space_id: &str) -> (p: String)
    ensures
        p@ == "/v1/spaces/"@ + space_id@ + "/types"@,
{
    crate::text::concat3("/v1/spaces/", space_id, "/types")
}

/// The path a type is read, updated and deleted at.
pub fn type_path(space_id: &str, type_id: &str) -> (p: String)
    ensures
        p@ == "/v1/spaces/"@ + space_id@ + "/types/"@ + type_id@,
{
    let p = crate::text::concat3("/v1/spaces/", space_id, "/types/");
    crate::text::concat(p.as_str(), type_id)
}

} // verus!
