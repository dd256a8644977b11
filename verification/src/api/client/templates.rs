//! Templates module
//!
//! Handles template management operations.
use vstd::prelude::*;
use crate::api::types::{Icon, Pagination};
use crate::json::JsonValue;

verus! {

/// Object type information
#[derive(Debug, PartialEq)]
pub struct ObjectType {
    pub archived: Option<bool>,
    pub icon: Icon,
    pub id: String,
    pub key: String,
    pub layout: Option<String>,
    pub name: String,
    pub object: String,
    pub plural_name: Option<String>,
    pub properties: Vec<JsonValue>,
}

/// Template information
#[derive(Debug, PartialEq)]
pub struct Template {
    pub archived: Option<bool>,
    pub icon: Icon,
    pub id: String,
    pub layout: Option<String>,
    pub markdown: Option<String>,
    pub name: Option<String>,
    pub object: String,
    pub properties: Vec<JsonValue>,
    pub snippet: Option<String>,
    pub space_id: String,
    pub object_type: Option<ObjectType>,
}

/// Response for getting a single template
#[derive(Debug, PartialEq)]
pub struct GetTemplateResponse {
    pub template: Template,
}

/// Response for listing templates
#[derive(Debug, PartialEq)]
pub struct ListTemplatesResponse {
    pub data: Vec<Template>,
    pub pagination: Pagination,
}

/// The path the templates of a type are listed at.
pub fn templates_path(space_id: &str, type_id: &str) -> (p: String)
    ensures
        p@ == "/v1/spaces/"@ + space_id@ + "/types/"@ + type_id@ + "/templates"@,
{
    let p = crate::text::concat3("/v1/spaces/", space_id, "/types/");
    crate::text::concat3(p.as_str(), type_id, "/templates")
}

/// The path a template is read at.
pub fn template_path(space_id: &str, type_id: &str, template_id: &str) -> (p: String)
    ensures
        p@ == "/v1/spaces/"@ + space_id@ + "/types/"@ + type_id@ + "/templates/"@ + template_id@,
{
    let p = crate::text::concat3("/v1/spaces/", space_id, "/types/");
    let p = crate::text::concat3(p.as_str(), type_id, "/templates/");
    crate::text::concat(p.as_str(), template_id)
}

} // verus!
