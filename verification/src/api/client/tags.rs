//! Tags module
//!
//! Handles tag management operations for properties.
use vstd::prelude::*;
use crate::api::types::{Color, Pagination};

verus! {

/// Tag information
#[derive(Debug, Clone, PartialEq)]
pub struct Tag {
    pub color: Option<Color>,
    pub id: String,
    pub key: String,
    pub name: String,
    pub object: String,
}

/// Response for listing tags
#[derive(Debug, Clone, PartialEq)]
pub struct ListTagsResponse {
    pub data: Vec<Tag>,
    pub pagination: Pagination,
}

/// Request for creating a tag
#[derive(Debug, Clone, PartialEq)]
pub struct CreateTagRequest {
    pub name: String,
    pub color: Option<Color>,
}

/// Response for creating a tag
#[derive(Debug, Clone, PartialEq)]
pub struct CreateTagResponse {
    pub tag: Tag,
}

/// Response for getting a tag
#[derive(Debug, Clone, PartialEq)]
pub struct GetTagResponse {
    pub tag: Tag,
}

/// Request for updating a tag
#[derive(Debug, Clone, PartialEq)]
pub struct UpdateTagRequest {
    pub name: Option<String>,
    pub color: Option<Color>,
}

/// Response for updating a tag
#[derive(Debug, Clone, PartialEq)]
pub struct UpdateTagResponse {
    pub tag: Tag,
}

/// Response for deleting a tag
#[derive(Debug, Clone, PartialEq)]
pub struct DeleteTagResponse {
    pub tag: Tag,
}

/// The path the tags of a property are listed and created at.
pub fn tags_path(space_id: &str, property_id: &str) -> (p: String)
    ensures
        p@ == "/v1/spaces/"@ + space_id@ + "/properties/"@ + property_id@ + "/tags"@,
{
    let p = crate::text::concat3("/v1/spaces/", space_id, "/properties/");
    crate::text::concat3(p.as_str(), property_id, "/tags")
}

/// The path a tag is read, updated and deleted at.
pub fn tag_path(space_id: &str, property_id: &str, tag_id: &str) -> (p: String)
    ensures
        p@ == "/v1/spaces/"@ + space_id@ + "/properties/"@ + property_id@ + "/tags/"@ + tag_id@,
{
    let p = crate::text::concat3("/v1/spaces/", space_id, "/properties/");
    let p = crate::text::concat3(p.as_str(), property_id, "/tags/");
    crate::text::concat(p.as_str(), tag_id)
}

} // verus!
