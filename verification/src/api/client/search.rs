//! Search module
//!
//! Handles search operations across spaces and objects.
use vstd::prelude::*;
use crate::api::types::{Icon, Pagination, Type};
use crate::json::JsonValue;

verus! {

/// Sort direction for search results
#[derive(Debug, Clone, Copy, PartialEq, Eq, Structural)]
pub enum SortDirection {
    Asc,
    Desc,
}

impl Default for SortDirection {
    fn default() -> (d: Self)
        ensures
            d == SortDirection::Desc,
    {
        SortDirection::Desc
    }
}

/// Sort property for search results
#[derive(Debug, Clone, Copy, PartialEq, Eq, Structural)]
pub enum SortProperty {
    CreatedDate,
    LastModifiedDate,
    LastOpenedDate,
    Name,
}

impl Default for SortProperty {
    fn default() -> (p: Self)
        ensures
            p == SortProperty::LastModifiedDate,
    {
        SortProperty::LastModifiedDate
    }
}

/// Sort options for search results
#[derive(Debug, Clone, Copy, PartialEq, Eq, Structural)]
pub struct Sort {
    pub direction: SortDirection,
    pub property_key: SortProperty,
}

impl Default for Sort {
    fn default() -> (s: Self)
        ensures
            s.direction == SortDirection::Desc,
            s.property_key == SortProperty::LastModifiedDate,
    {
        Sort { direction: SortDirection::Desc, property_key: SortProperty::LastModifiedDate }
    }
}

/// Search request parameters
#[derive(Debug, Clone, PartialEq)]
pub struct SearchRequest {
    pub offset: Option<usize>,
    pub limit: Option<usize>,
    pub query: Option<String>,
    pub space_id: Option<String>,
    pub sort: Option<Sort>,
}

/// Search request parameters for space-specific search
#[derive(Debug, Clone, PartialEq)]
pub struct SearchSpaceRequest {
    pub query: Option<String>,
    pub limit: Option<usize>,
    pub offset: Option<usize>,
    pub sort: Option<Sort>,
}

/// Basic object information for search results
#[derive(Debug, PartialEq)]
pub struct SearchObject {
    pub archived: bool,
    /// The icon of the object (optional in search results)
    pub icon: Option<Icon>,
    pub id: String,
    pub name: String,
    pub object: String,
    pub properties: JsonValue,
    pub snippet: String,
    pub space_id: String,
    pub object_type: Option<Type>,
}

/// Search response
#[derive(Debug, PartialEq)]
pub struct SearchResponse {
    pub data: Vec<SearchObject>,
    pub pagination: Pagination,
}

/// The path of the search across all spaces.
pub fn search_path() -> (p: &'static str)
    ensures
        p@ == "/v1/search"@,
{
    "/v1/search"
}

/// The path of the search within a space.
pub fn space_search_path(space_id: &str) -> (p: String)
    ensures
        p@ == "/v1/spaces/"@ + space_id@ + "/search"@,
{
    crate::text::concat3("/v1/spaces/", space_id, "/search")
}

} // verus!
