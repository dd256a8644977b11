//! Properties module
//!
//! Handles property management operations.
use vstd::prelude::*;
use crate::api::types::Pagination;

verus! {

/// Property information
#[derive(Debug, Clone, PartialEq)]
pub struct Property {
    pub format: String,
    pub id: String,
    pub key: String,
    pub name: String,
    pub object: String,
}

/// Response for listing properties
#[derive(Debug, Clone, PartialEq)]
pub struct ListPropertiesResponse {
    pub data: Vec<Property>,
    pub pagination: Pagination,
}

/// Response when getting a property
#[derive(Debug, Clone, PartialEq)]
pub struct GetPropertyResponse {
    pub property: Property,
}

/// The format of a property's values
#[derive(Debug, Clone, Copy, PartialEq, Eq, Structural)]
pub enum PropertyFormat {
    Text,
    Number,
    Select,
    MultiSelect,
    Date,
    Files,
    Checkbox,
    Url,
    Email,
    Phone,
    Objects,
}

/// Request to create a new property
#[derive(Debug, Clone, PartialEq)]
pub struct CreatePropertyRequest {
    pub name: String,
    pub format: PropertyFormat,
}

/// Response when creating a property
#[derive(Debug, Clone, PartialEq)]
pub struct CreatePropertyResponse {
    pub property: Property,
}

/// Request to update a property
#[derive(Debug, Clone, PartialEq)]
pub struct UpdatePropertyRequest {
    pub name: String,
    pub format: PropertyFormat,
}

/// The format a lower-case name stands for; `multiselect` is taken for
/// `multi_select`.
pub open spec fn format_of_name(s: Seq<char>) -> Option<PropertyFormat> {
    if s == "text"@ {
        Some(PropertyFormat::Text)
    } else if s == "number"@ {
        Some(PropertyFormat::Number)
    } else if s == "select"@ {
        Some(PropertyFormat::Select)
    } else if s == "multi_select"@ || s == "multiselect"@ {
        Some(PropertyFormat::MultiSelect)
    } else if s == "date"@ {
        Some(PropertyFormat::Date)
    } else if s == "files"@ {
        Some(PropertyFormat::Files)
    } else if s == "checkbox"@ {
        Some(PropertyFormat::Checkbox)
    } else if s == "url"@ {
        Some(PropertyFormat::Url)
    } else if s == "email"@ {
        Some(PropertyFormat::Email)
    } else if s == "phone"@ {
        Some(PropertyFormat::Phone)
    } else if s == "objects"@ {
        Some(PropertyFormat::Objects)
    } else {
        None
    }
}

/// The name the API uses for a format.
pub open spec fn format_name(f: PropertyFormat) -> Seq<char> {
    match f {
        PropertyFormat::Text => "text"@,
        PropertyFormat::Number => "number"@,
        PropertyFormat::Select => "select"@,
        PropertyFormat::MultiSelect => "multi_select"@,
        PropertyFormat::Date => "date"@,
        PropertyFormat::Files => "files"@,
        PropertyFormat::Checkbox => "checkbox"@,
        PropertyFormat::Url => "url"@,
        PropertyFormat::Email => "email"@,
        PropertyFormat::Phone => "phone"@,
        PropertyFormat::Objects => "objects"@,
    }
}

impl PropertyFormat {
    /// The name the API uses for the format.
    pub fn api_name(&self) -> (s: &'static str)
        ensures
            s@ == format_name(*self),
    {
        match self {
            PropertyFormat::Text => "text",
            PropertyFormat::Number => "number",
            PropertyFormat::Select => "select",
            PropertyFormat::MultiSelect => "multi_select",
            PropertyFormat::Date => "date",
            PropertyFormat::Files => "files",
            PropertyFormat::Checkbox => "checkbox",
            PropertyFormat::Url => "url",
            PropertyFormat::Email => "email",
            PropertyFormat::Phone => "phone",
            PropertyFormat::Objects => "objects",
        }
    }

    /// The format named by a lower-case name, if any.
    pub fn from_api_name(s: &str) -> (r: Option<PropertyFormat>)
        ensures
            r == format_of_name(s@),
    {
        let t = crate::text::owned(s);
        if t == crate::text::owned("text") {
            Some(PropertyFormat::Text)
        } else if t == crate::text::owned("number") {
            Some(PropertyFormat::Number)
        } else if t == crate::text::owned("select") {
            Some(PropertyFormat::Select)
        } else if t == crate::text::owned("multi_select") || t == crate::text::owned("multiselect") {
            Some(PropertyFormat::MultiSelect)
        } else if t == crate::text::owned("date") {
            Some(PropertyFormat::Date)
        } else if t == crate::text::owned("files") {
            Some(PropertyFormat::Files)
        } else if t == crate::text::owned("checkbox") {
            Some(PropertyFormat::Checkbox)
        } else if t == crate::text::owned("url") {
            Some(PropertyFormat::Url)
        } else if t == crate::text::owned("email") {
            Some(PropertyFormat::Email)
        } else if t == crate::text::owned("phone") {
            Some(PropertyFormat::Phone)
        } else if t == crate::text::owned("objects") {
            Some(PropertyFormat::Objects)
        } else {
            None
        }
    }
}

/// Every format is named by its API name.
pub proof fn law_format_names_round_trip(f: PropertyFormat)
    ensures
        format_of_name(format_name(f)) == Some(f),
{
    reveal_strlit("text");
    reveal_strlit("number");
    reveal_strlit("select");
    reveal_strlit("multi_select");
    reveal_strlit("multiselect");
    reveal_strlit("date");
    reveal_strlit("files");
    reveal_strlit("checkbox");
    reveal_strlit("url");
    reveal_strlit("email");
    reveal_strlit("phone");
    reveal_strlit("objects");
    assert("text"@[0] == 't' && "text"@[1] == 'e' && "text"@.len() == 4);
    assert("number"@[0] == 'n' && "number"@[1] == 'u' && "number"@.len() == 6);
    assert("select"@[0] == 's' && "select"@[1] == 'e' && "select"@.len() == 6);
    assert("multi_select"@[0] == 'm' && "multi_select"@[1] == 'u' && "multi_select"@.len() == 12);
    assert("multiselect"@[0] == 'm' && "multiselect"@[1] == 'u' && "multiselect"@.len() == 11);
    assert("date"@[0] == 'd' && "date"@[1] == 'a' && "date"@.len() == 4);
    assert("files"@[0] == 'f' && "files"@[1] == 'i' && "files"@.len() == 5);
    assert("checkbox"@[0] == 'c' && "checkbox"@[1] == 'h' && "checkbox"@.len() == 8);
    assert("url"@[0] == 'u' && "url"@[1] == 'r' && "url"@.len() == 3);
    assert("email"@[0] == 'e' && "email"@[1] == 'm' && "email"@.len() == 5);
    assert("phone"@[0] == 'p' && "phone"@[1] == 'h' && "phone"@.len() == 5);
    assert("objects"@[0] == 'o' && "objects"@[1] == 'b' && "objects"@.len() == 7);
}

/// Every format's name is lower-case ASCII, so it reads back as the format
/// in any ASCII letter case.
pub proof fn law_format_names_any_case(f: PropertyFormat)
    ensures
        crate::text::is_ascii_text(format_name(f)),
        format_of_name(crate::text::ascii_folded(format_name(f))) == Some(f),
{
    law_format_names_round_trip(f);
    let n = format_name(f);
    assert forall|i: int| 0 <= i < n.len() implies ('a' <= #[trigger] n[i] && n[i] <= 'z') || n[i] == '_' by {
        reveal_strlit("text");
        reveal_strlit("number");
        reveal_strlit("select");
        reveal_strlit("multi_select");
        reveal_strlit("date");
        reveal_strlit("files");
        reveal_strlit("checkbox");
        reveal_strlit("url");
        reveal_strlit("email");
        reveal_strlit("phone");
        reveal_strlit("objects");
    }
    crate::text::lemma_lower_ascii_unchanged(n);
}

/// The path the properties of a space are listed and created at.
pub fn properties_path(space_id: &str) -> (p: String)
    ensures
        p@ == "/v1/spaces/"@ + space_id@ + "/properties"@,
{
    crate::text::concat3("/v1/spaces/", space_id, "/properties")
}

/// The path a property of a space is read, updated and deleted at.
pub fn property_path(space_id: &str, property_id: &str) -> (p: String)
    ensures
        p@ == "/v1/spaces/"@ + space_id@ + "/properties/"@ + property_id@,
{
    let p = crate::text::concat3("/v1/spaces/", space_id, "/properties/");
    crate::text::concat(p.as_str(), property_id)
}

} // verus!
