//! The `anytype tag` commands.
use vstd::prelude::*;
use super::{resolve_failure, resolve_failure_text, LabeledError, labeled_error, plain_error, single_quoted};
use crate::api::types::color_of_name;
use crate::api::{Color, CreateTagRequest, Tag, UpdateTagRequest};
use crate::cache::resolver::Resolver;
use crate::text::{ascii_folded, concat, concat3, is_ascii_text, lowercase, owned, to_lowercase};
use crate::value::AnytypeValue;

verus! {

/// Command: anytype tag list
pub struct TagList;

/// Command: anytype tag get
pub struct TagGet;

/// Command: anytype tag create
pub struct TagCreate;

/// Command: anytype tag update
pub struct TagUpdate;

/// Command: anytype tag delete
pub struct TagDelete;

/// The text naming the valid colors in an error.
pub open spec fn color_choices() -> Seq<char> {
    "grey, yellow, orange, red, pink, purple, blue, ice, teal, lime"@
}

/// Helper function to parse color string: the name is read without regard
/// to case.
pub fn parse_color(color_str: &str) -> (r: Result<Color, LabeledError>)
    ensures
        is_ascii_text(color_str@) ==> match color_of_name(ascii_folded(color_str@)) {
            Some(c) => r == Ok::<Color, LabeledError>(c),
            None => r is Err,
        },
        match color_of_name(lowercase(color_str@)) {
            Some(c) => r == Ok::<Color, LabeledError>(c),
            None => r matches Err(e) && labeled_error(
                e,
                "Invalid color: "@ + color_str@ + ". Valid options: "@ + color_choices(),
                "Invalid color"@,
            ),
        },
{
    let lower = to_lowercase(color_str);
    match Color::from_api_name(lower.as_str()) {
        Some(c) => Ok(c),
        None => {
            let msg = concat3("Invalid color: ", color_str, ". Valid options: ");
            let msg = concat(msg.as_str(), "grey, yellow, orange, red, pink, purple, blue, ice, teal, lime");
            Err(LabeledError { msg, label: Some(owned("Invalid color")) })
        },
    }
}

/// The colour given to a tag command, parsed, where one is given.
pub fn parse_optional_color(color_str: Option<String>) -> (r: Result<Option<Color>, LabeledError>)
    ensures
        match color_str {
            None => r == Ok::<Option<Color>, LabeledError>(None),
            Some(c) => match color_of_name(lowercase(c@)) {
                Some(col) => r == Ok::<Option<Color>, LabeledError>(Some(col)),
                None => r matches Err(e) && labeled_error(
                    e,
                    "Invalid color: "@ + c@ + ". Valid options: "@ + color_choices(),
                    "Invalid color"@,
                ),
            },
        },
{
    match color_str {
        None => Ok(None),
        Some(c) => match parse_color(c.as_str()) {
            Ok(col) => Ok(Some(col)),
            Err(e) => Err(e),
        },
    }
}

/// Where a tag command finds the property its tag belongs to.
#[derive(Debug, Clone, PartialEq)]
pub enum PropertySource {
    /// The property named by `--property`, to be resolved within the type of
    /// the value piped in.
    Named(String),
    /// The space and property of the value piped in.
    Piped { space_id: String, property_id: String },
}

/// The message when a tag command has no property to work in.
pub open spec fn missing_property_text() -> Seq<char> {
    "Property context required. Use --property <name> flag or pipe a Property/Tag"@
}

/// The property of a tag command: the one named by `--property`, else the
/// space and property of the value piped in, which must carry both.
pub fn property_source(property_flag: Option<String>, piped: Option<&AnytypeValue>) -> (r: Result<PropertySource, LabeledError>)
    ensures
        match property_flag {
            Some(n) => r matches Ok(PropertySource::Named(m)) && m@ == n@,
            None => match piped {
                Some(v) => match v.spec_property_id() {
                    Some(p) => r matches Ok(PropertySource::Piped { space_id, property_id })
                        && space_id@ == v.spec_space_id() && property_id@ == p,
                    None => r matches Err(e) && labeled_error(e, missing_property_text(), "Missing property context"@),
                },
                None => r matches Err(e) && labeled_error(e, missing_property_text(), "Missing property context"@),
            },
        },
{
    match property_flag {
        Some(n) => Ok(PropertySource::Named(n)),
        None => {
            let missing = LabeledError::labeled(
                "Property context required. Use --property <name> flag or pipe a Property/Tag",
                "Missing property context",
            );
            match piped {
                Some(v) => match (v.space_id(), v.property_id()) {
                    (Some(s), Some(p)) => Ok(PropertySource::Piped { space_id: owned(s), property_id: owned(p) }),
                    _ => Err(missing),
                },
                None => Err(missing),
            }
        },
    }
}

/// The type within which a property named to a tag command is resolved:
/// the type of the value piped in, which must have one.
pub fn property_type_context(piped: Option<&AnytypeValue>) -> (r: Result<String, LabeledError>)
    ensures
        match piped {
            Some(v) => match v.spec_type_id() {
                Some(t) => r matches Ok(id) && id@ == t,
                None => r matches Err(e) && labeled_error(
                    e,
                    "Type context required to resolve property. Pipe a Type or Property to provide context"@,
                    "Missing type context"@,
                ),
            },
            None => r matches Err(e) && labeled_error(
                e,
                "Type context required to resolve property. Pipe a Type or Property to provide context"@,
                "Missing type context"@,
            ),
        },
{
    let missing = LabeledError::labeled(
        "Type context required to resolve property. Pipe a Type or Property to provide context",
        "Missing type context",
    );
    match piped {
        Some(v) => match v.type_id() {
            Some(t) => Ok(owned(t)),
            None => Err(missing),
        },
        None => Err(missing),
    }
}

/// The error when a tag cannot be resolved within its property.
pub fn tag_resolve_failure(tag_name: &str, property_id: &str, detail: &str) -> (e: LabeledError)
    ensures
        plain_error(e, resolve_failure_text("tag"@, tag_name@, "property"@, property_id@, detail@)),
{
    resolve_failure("tag", tag_name, "property", property_id, detail)
}

/// The error when a property cannot be resolved within its type.
pub fn property_resolve_failure(property_name: &str, type_id: &str, detail: &str) -> (e: LabeledError)
    ensures
        plain_error(e, resolve_failure_text("property"@, property_name@, "type"@, type_id@, detail@)),
{
    resolve_failure("property", property_name, "type", type_id, detail)
}

/// Whether `v` is the tag `t`, in the given space and property.
pub open spec fn tag_value_of(v: AnytypeValue, t: Tag, space_id: Seq<char>, property_id: Seq<char>) -> bool {
    v matches AnytypeValue::Tag { id, name, key, color, space_id: s, property_id: p }
        && id == t.id && name == t.name && key == t.key && color == t.color && s@ == space_id
        && p@ == property_id
}

impl TagList {
    /// The name the shell calls the command by.
    pub fn name(&self) -> (r: &'static str)
        ensures
            r@ == "anytype tag list"@,
    {
        "anytype tag list"
    }

    /// The description the shell shows for the command.
    pub fn description(&self) -> (r: &'static str)
        ensures
            r@ == "List all tags for a property"@,
    {
        "List all tags for a property"
    }

    /// The tags listed, each in the space and property it was listed in.
    pub fn values(tags: Vec<Tag>, space_id: &str, property_id: &str) -> (r: Vec<AnytypeValue>)
        ensures
            r@.len() == tags@.len(),
            forall|i: int| 0 <= i < tags@.len() ==> tag_value_of(#[trigger] r@[i], tags@[i], space_id@, property_id@),
    {
        let mut out: Vec<AnytypeValue> = Vec::new();
        let mut rest = tags;
        let ghost all = rest@;
        while rest.len() > 0
            invariant
                out@.len() + rest@.len() == all.len(),
                rest@ == all.subrange(out@.len() as int, all.len() as int),
                forall|i: int| 0 <= i < out@.len() ==> tag_value_of(#[trigger] out@[i], all[i], space_id@, property_id@),
            decreases rest.len(),
        {
            let t = rest.remove(0);
            proof {
                assert(t == all[out@.len() as int]);
            }
            out.push(AnytypeValue::from_tag(t, owned(space_id), owned(property_id)));
        }
        out
    }
}

impl TagGet {
    /// The name the shell calls the command by.
    pub fn name(&self) -> (r: &'static str)
        ensures
            r@ == "anytype tag get"@,
    {
        "anytype tag get"
    }

    /// The description the shell shows for the command.
    pub fn description(&self) -> (r: &'static str)
        ensures
            r@ == "Get a tag by name"@,
    {
        "Get a tag by name"
    }
}

impl TagCreate {
    /// The name the shell calls the command by.
    pub fn name(&self) -> (r: &'static str)
        ensures
            r@ == "anytype tag create"@,
    {
        "anytype tag create"
    }

    /// The description the shell shows for the command.
    pub fn description(&self) -> (r: &'static str)
        ensures
            r@ == "Create a new tag for a property"@,
    {
        "Create a new tag for a property"
    }

    /// The property the new tag belongs to, which the command requires.
    pub fn required_property(property_flag: Option<String>) -> (r: Result<String, LabeledError>)
        ensures
            match property_flag {
                Some(n) => r matches Ok(m) && m@ == n@,
                None => r matches Err(e) && labeled_error(
                    e,
                    "Property name required. Use --property <name> flag or pipe a Property"@,
                    "Missing property name"@,
                ),
            },
    {
        match property_flag {
            Some(n) => Ok(n),
            None => Err(LabeledError::labeled(
                "Property name required. Use --property <name> flag or pipe a Property",
                "Missing property name",
            )),
        }
    }

    /// The request creating the tag.
    pub fn request(tag_name: String, color: Option<Color>) -> (r: CreateTagRequest)
        ensures
            r.name == tag_name,
            r.color == color,
    {
        CreateTagRequest { name: tag_name, color }
    }

}

impl TagUpdate {
    /// The name the shell calls the command by.
    pub fn name(&self) -> (r: &'static str)
        ensures
            r@ == "anytype tag update"@,
    {
        "anytype tag update"
    }

    /// The description the shell shows for the command.
    pub fn description(&self) -> (r: &'static str)
        ensures
            r@ == "Update an existing tag"@,
    {
        "Update an existing tag"
    }

    /// The request updating the tag: the new name and the colour, where given.
    pub fn request(new_name: Option<String>, color: Option<Color>) -> (r: UpdateTagRequest)
        ensures
            r.name == new_name,
            r.color == color,
    {
        UpdateTagRequest { name: new_name, color }
    }

    /// After the update, the cache forgets the tag's old name and, where it
    /// was renamed, its new name, within its property; nothing else changes.
    pub fn forget_names(resolver: &mut Resolver, property_id: &str, tag_name: &str, new_name: &Option<String>)
        ensures
            final(resolver).cache().tag_ids() == match new_name {
                Some(n) => old(resolver).cache().tag_ids().remove((property_id@, tag_name@)).remove((property_id@, n@)),
                None => old(resolver).cache().tag_ids().remove((property_id@, tag_name@)),
            },
            final(resolver).cache().same_outside(&old(resolver).cache(), crate::cache::CacheMap::Tags),
            final(resolver).case_insensitive() == old(resolver).case_insensitive(),
    {
        resolver.invalidate_tag(property_id, tag_name);
        match new_name {
            Some(n) => {
                resolver.invalidate_tag(property_id, n.as_str());
            },
            None => {},
        }
    }
}

impl TagDelete {
    /// The name the shell calls the command by.
    pub fn name(&self) -> (r: &'static str)
        ensures
            r@ == "anytype tag delete"@,
    {
        "anytype tag delete"
    }

    /// The description the shell shows for the command.
    pub fn description(&self) -> (r: &'static str)
        ensures
            r@ == "Delete a tag from a property"@,
    {
        "Delete a tag from a property"
    }

    /// The confirmation of a deleted tag.
    pub fn deleted_message(tag: &Tag) -> (m: String)
        ensures
            m@ == "Tag "@ + single_quoted(tag.name@) + " (ID: "@ + tag.id@ + ") deleted successfully"@,
    {
        let q = super::quote(tag.name.as_str());
        let a = concat3("Tag ", q.as_str(), " (ID: ");
        let m = concat3(a.as_str(), tag.id.as_str(), ") deleted successfully");
        assert(m@ =~= "Tag "@ + single_quoted(tag.name@) + " (ID: "@ + tag.id@ + ") deleted successfully"@);
        m
    }
}

impl TagCreate {
    /// What follows the API's answer: on success the cache forgets the tag name within its property, and what the API
    /// gave back is passed on; on failure the error says so and the cache
    /// stays as it was.
    pub fn settle<T>(resolver: &mut Resolver, property_id: &str, tag_name: &str, outcome: Result<T, String>) -> (r: Result<T, LabeledError>)
        ensures
            match outcome {
                Ok(t) => r == Ok::<T, LabeledError>(t) && crate::cache::resolver::tag_forgotten(*final(resolver), *old(resolver), property_id@, tag_name@),
                Err(d) => r matches Err(e) && super::plain_error(e, super::failure_text("create tag"@, d@))
                    && *final(resolver) == *old(resolver),
            },
    {
        match outcome {
            Ok(t) => {
                resolver.invalidate_tag(property_id, tag_name);
                Ok(t)
            },
            Err(d) => Err(super::failure("create tag", d.as_str())),
        }
    }
}

impl TagDelete {
    /// What follows the API's answer: on success the cache forgets the tag name within its property, and what the API
    /// gave back is passed on; on failure the error says so and the cache
    /// stays as it was.
    pub fn settle<T>(resolver: &mut Resolver, property_id: &str, tag_name: &str, outcome: Result<T, String>) -> (r: Result<T, LabeledError>)
        ensures
            match outcome {
                Ok(t) => r == Ok::<T, LabeledError>(t) && crate::cache::resolver::tag_forgotten(*final(resolver), *old(resolver), property_id@, tag_name@),
                Err(d) => r matches Err(e) && super::plain_error(e, super::failure_text("delete tag"@, d@))
                    && *final(resolver) == *old(resolver),
            },
    {
        match outcome {
            Ok(t) => {
                resolver.invalidate_tag(property_id, tag_name);
                Ok(t)
            },
            Err(d) => Err(super::failure("delete tag", d.as_str())),
        }
    }
}

impl TagUpdate {
    /// What follows the API's answer to the update: on success the cache
    /// forgets the tag's old name and, where it was renamed, its new name,
    /// and what the API gave back is passed on; on failure the error says so
    /// and the cache stays as it was.
    pub fn settle<T>(
        resolver: &mut Resolver,
        property_id: &str,
        tag_name: &str,
        new_name: &Option<String>,
        outcome: Result<T, String>,
    ) -> (r: Result<T, LabeledError>)
        ensures
            match outcome {
                Ok(t) => r == Ok::<T, LabeledError>(t)
                    && final(resolver).cache().tag_ids() == match new_name {
                        Some(n) => old(resolver).cache().tag_ids().remove((property_id@, tag_name@)).remove((property_id@, n@)),
                        None => old(resolver).cache().tag_ids().remove((property_id@, tag_name@)),
                    }
                    && final(resolver).cache().same_outside(&old(resolver).cache(), crate::cache::CacheMap::Tags)
                    && final(resolver).case_insensitive() == old(resolver).case_insensitive(),
                Err(d) => r matches Err(e) && super::plain_error(e, super::failure_text("update tag"@, d@))
                    && *final(resolver) == *old(resolver),
            },
    {
        match outcome {
            Ok(t) => {
                TagUpdate::forget_names(resolver, property_id, tag_name, new_name);
                Ok(t)
            },
            Err(d) => Err(super::failure("update tag", d.as_str())),
        }
    }
}

} // verus!
