//! The `anytype type` commands.
use vstd::prelude::*;
use crate::cache::resolver::Resolver;
use super::LabeledError;
use crate::api::client::properties::format_of_name;
use crate::api::types::layout_of_name;
use crate::api::{CreateTypeProperty, CreateTypeRequest, Icon, Layout, Type, TypeProperty, UpdateTypeRequest};
use crate::api::PropertyFormat;
use crate::text::{ascii_folded, concat, concat3, is_ascii_text, lowercase, owned, to_lowercase};
use crate::value::AnytypeValue;

verus! {

/// Command: anytype type list
pub struct TypeList;

/// Command: anytype type get
pub struct TypeGet;

/// Command: anytype type create
pub struct TypeCreate;

/// Command: anytype type update
pub struct TypeUpdate;

/// Command: anytype type delete
pub struct TypeDelete;

/// The text naming the valid layouts in an error.
pub open spec fn layout_choices() -> Seq<char> {
    "basic, profile, action, note, bookmark, set, collection, participant"@
}

/// The error text of a layout name that names no layout.
pub open spec fn invalid_layout_text(layout: Seq<char>) -> Seq<char> {
    "Invalid layout '"@ + layout + "'. Valid options: "@ + layout_choices()
}

/// Helper function to parse layout string into Layout enum: the name is
/// read without regard to case.
pub fn parse_layout(layout: &str) -> (r: Result<Layout, String>)
    ensures
        match layout_of_name(lowercase(layout@)) {
            Some(l) => r == Ok::<Layout, String>(l),
            None => r matches Err(e) && e@ == invalid_layout_text(layout@),
        },
        is_ascii_text(layout@) ==> match layout_of_name(ascii_folded(layout@)) {
            Some(l) => r == Ok::<Layout, String>(l),
            None => r is Err,
        },
{
    let lower = to_lowercase(layout);
    match Layout::from_api_name(lower.as_str()) {
        Some(l) => Ok(l),
        None => {
            let head = concat3("Invalid layout '", layout, "'. Valid options: ");
            Err(concat(head.as_str(), "basic, profile, action, note, bookmark, set, collection, participant"))
        },
    }
}

/// The format a name stands for, read without regard to case; a name that
/// names no format stands for text.
pub open spec fn format_or_text(format: Seq<char>) -> PropertyFormat {
    match format_of_name(lowercase(format)) {
        Some(f) => f,
        None => PropertyFormat::Text,
    }
}

/// Helper function to parse property format string into PropertyFormat enum,
/// with text as the fallback.
pub fn parse_property_format(format: &str) -> (f: PropertyFormat)
    ensures
        f == format_or_text(format@),
        is_ascii_text(format@) ==> f == match format_of_name(ascii_folded(format@)) {
            Some(g) => g,
            None => PropertyFormat::Text,
        },
{
    let lower = to_lowercase(format);
    match PropertyFormat::from_api_name(lower.as_str()) {
        Some(f) => f,
        None => PropertyFormat::Text,
    }
}

/// The error when a layout given to a command names no layout.
pub fn layout_error(detail: &str) -> (e: LabeledError)
    ensures
        super::labeled_error(e, "Invalid layout: "@ + detail@, "Invalid layout value"@),
{
    let msg = concat("Invalid layout: ", detail);
    LabeledError { msg, label: Some(owned("Invalid layout value")) }
}

/// Whether a property of a type request carries the key, the name and the
/// format (read as `parse_property_format` reads it) of a property of a type.
pub open spec fn carries_property(c: CreateTypeProperty, p: TypeProperty) -> bool {
    &&& c.format == format_or_text(p.format@)
    &&& c.key@ == p.key@
    &&& c.name@ == p.name@
}

/// Whether `v` is the type `t`, in the space `space_id`.
pub open spec fn type_value_of(v: AnytypeValue, t: Type, space_id: Seq<char>) -> bool {
    v matches AnytypeValue::Type { id, name, key, plural_name, layout, space_id: s }
        && id == t.id && name == t.name && key == t.key && plural_name == t.plural_name
        && layout == t.layout && s@ == space_id
}

impl TypeList {
    /// The name the shell calls the command by.
    pub fn name(&self) -> (r: &'static str)
        ensures
            r@ == "anytype type list"@,
    {
        "anytype type list"
    }

    /// The description the shell shows for the command.
    pub fn description(&self) -> (r: &'static str)
        ensures
            r@ == "List all types in a space"@,
    {
        "List all types in a space"
    }

    /// The types listed, each in the space it was listed in.
    pub fn values(types: Vec<Type>, space_id: &str) -> (r: Vec<AnytypeValue>)
        ensures
            r@.len() == types@.len(),
            forall|i: int| 0 <= i < types@.len() ==> type_value_of(#[trigger] r@[i], types@[i], space_id@),
    {
        let mut out: Vec<AnytypeValue> = Vec::new();
        let mut rest = types;
        let ghost all = rest@;
        while rest.len() > 0
            invariant
                out@.len() + rest@.len() == all.len(),
                rest@ == all.subrange(out@.len() as int, all.len() as int),
                forall|i: int| 0 <= i < out@.len() ==> type_value_of(#[trigger] out@[i], all[i], space_id@),
            decreases rest.len(),
        {
            let t = rest.remove(0);
            proof {
                assert(t == all[out@.len() as int]);
            }
            out.push(AnytypeValue::from_type(t, owned(space_id)));
        }
        out
    }
}

impl TypeGet {
    /// The name the shell calls the command by.
    pub fn name(&self) -> (r: &'static str)
        ensures
            r@ == "anytype type get"@,
    {
        "anytype type get"
    }

    /// The description the shell shows for the command.
    pub fn description(&self) -> (r: &'static str)
        ensures
            r@ == "Get a type by name"@,
    {
        "Get a type by name"
    }
}

impl TypeCreate {
    /// The name the shell calls the command by.
    pub fn name(&self) -> (r: &'static str)
        ensures
            r@ == "anytype type create"@,
    {
        "anytype type create"
    }

    /// The description the shell shows for the command.
    pub fn description(&self) -> (r: &'static str)
        ensures
            r@ == "Create a new type in a space"@,
    {
        "Create a new type in a space"
    }

    /// The key and plural name the command requires, in that order.
    pub fn required_flags(key: Option<String>, plural: Option<String>) -> (r: Result<(String, String), LabeledError>)
        ensures
            match (key, plural) {
                (None, _) => r matches Err(e) && super::labeled_error(e, "--key is required"@, "Missing --key"@),
                (Some(_), None) => r matches Err(e)
                    && super::labeled_error(e, "--plural is required"@, "Missing --plural"@),
                (Some(k), Some(p)) => r matches Ok(v) && v.0@ == k@ && v.1@ == p@,
            },
    {
        match key {
            None => Err(LabeledError::labeled("--key is required", "Missing --key")),
            Some(k) => match plural {
                None => Err(LabeledError::labeled("--plural is required", "Missing --plural")),
                Some(p) => Ok((k, p)),
            },
        }
    }

    /// The request creating the type: the layout given (basic where none is),
    /// the emoji given as icon (the page emoji where none is), and no
    /// properties.
    pub fn request(
        name: String,
        key: String,
        plural_name: String,
        layout: Option<String>,
        icon: Option<String>,
    ) -> (r: Result<CreateTypeRequest, LabeledError>)
        ensures
            ({
                let parsed = match layout {
                    Some(s) => layout_of_name(lowercase(s@)),
                    None => Some(Layout::Basic),
                };
                match parsed {
                    None => r matches Err(e) && super::labeled_error(
                        e,
                        "Invalid layout: "@ + invalid_layout_text(layout->0@),
                        "Invalid layout value"@,
                    ),
                    Some(lay) => r matches Ok(req) && req.layout == lay && req.name == name && req.key == key
                        && req.plural_name == plural_name && req.properties@.len() == 0
                        && (req.icon matches Icon::Emoji { emoji } && emoji@ == match icon {
                            Some(e) => e@,
                            None => "📄"@,
                        }),
                }
            }),
    {
        let parsed = match layout {
            Some(s) => parse_layout(s.as_str()),
            None => Ok(Layout::Basic),
        };
        match parsed {
            Err(detail) => Err(layout_error(detail.as_str())),
            Ok(lay) => {
                let emoji = match icon {
                    Some(e) => e,
                    None => owned("📄"),
                };
                Ok(CreateTypeRequest {
                    icon: Icon::Emoji { emoji },
                    key,
                    layout: lay,
                    name,
                    plural_name,
                    properties: Vec::new(),
                })
            },
        }
    }
}

/// The changes `anytype type update` is asked for; what is not given keeps
/// its current value.
#[derive(Debug, Clone, PartialEq)]
pub struct TypeChanges {
    pub new_name: Option<String>,
    pub key: Option<String>,
    pub plural_name: Option<String>,
    pub layout: Option<String>,
    pub icon: Option<String>,
}

/// A new value where one is given, the current one otherwise.
pub open spec fn given_or(given: Option<String>, current: Seq<char>) -> Seq<char> {
    match given {
        Some(g) => g@,
        None => current,
    }
}

/// The layout a type keeps when none is given: its current layout where that
/// names one, basic otherwise.
pub open spec fn kept_layout(current: Option<String>) -> Layout {
    match current {
        Some(l) => match layout_of_name(lowercase(l@)) {
            Some(lay) => lay,
            None => Layout::Basic,
        },
        None => Layout::Basic,
    }
}

/// Builds the properties of a type request from the properties of a type.
fn properties_of(properties: Vec<TypeProperty>) -> (r: Vec<CreateTypeProperty>)
    ensures
        r@.len() == properties@.len(),
        forall|i: int| 0 <= i < properties@.len() ==> carries_property(#[trigger] r@[i], properties@[i]),
{
    let mut out: Vec<CreateTypeProperty> = Vec::new();
    let mut rest = properties;
    let ghost all = rest@;
    while rest.len() > 0
        invariant
            out@.len() + rest@.len() == all.len(),
            rest@ == all.subrange(out@.len() as int, all.len() as int),
            forall|i: int| 0 <= i < out@.len() ==> carries_property(#[trigger] out@[i], all[i]),
        decreases rest.len(),
    {
        let p = rest.remove(0);
        proof {
            assert(p == all[out@.len() as int]);
        }
        let format = parse_property_format(p.format.as_str());
        out.push(CreateTypeProperty { format, key: p.key, name: p.name });
    }
    out
}

impl TypeUpdate {
    /// The name the shell calls the command by.
    pub fn name(&self) -> (r: &'static str)
        ensures
            r@ == "anytype type update"@,
    {
        "anytype type update"
    }

    /// The description the shell shows for the command.
    pub fn description(&self) -> (r: &'static str)
        ensures
            r@ == "Update an existing type"@,
    {
        "Update an existing type"
    }

    /// Check if at least one update field is provided.
    pub fn check_changes(changes: &TypeChanges) -> (r: Result<(), LabeledError>)
        ensures
            r is Ok <==> (changes.new_name is Some || changes.key is Some || changes.plural_name is Some
                || changes.layout is Some || changes.icon is Some),
            r matches Err(e) ==> super::labeled_error(
                e,
                "At least one field must be provided to update"@,
                "No update fields provided"@,
            ),
    {
        if changes.new_name.is_none() && changes.key.is_none() && changes.plural_name.is_none()
            && changes.layout.is_none() && changes.icon.is_none()
        {
            Err(LabeledError::labeled("At least one field must be provided to update", "No update fields provided"))
        } else {
            Ok(())
        }
    }

    /// Build update request using new values or current values: the name,
    /// key and plural name given or current (an empty plural name where the
    /// type has none), the layout given or kept, the emoji given or the
    /// current icon, and the current properties.
    pub fn request(changes: TypeChanges, current: Type, current_icon: Icon) -> (r: Result<UpdateTypeRequest, LabeledError>)
        ensures
            match changes.layout {
                Some(l) => layout_of_name(lowercase(l@)) is None ==> (r matches Err(e) && super::labeled_error(
                    e,
                    "Invalid layout: "@ + invalid_layout_text(l@),
                    "Invalid layout value"@,
                )),
                None => true,
            },
            (match changes.layout {
                Some(l) => layout_of_name(lowercase(l@)) is Some,
                None => true,
            }) ==> (r matches Ok(req) && {
                &&& req.name@ == given_or(changes.new_name, current.name@)
                &&& req.key@ == given_or(changes.key, current.key@)
                &&& req.plural_name@ == given_or(changes.plural_name, match current.plural_name {
                    Some(p) => p@,
                    None => Seq::<char>::empty(),
                })
                &&& req.layout == match changes.layout {
                    Some(l) => layout_of_name(lowercase(l@))->0,
                    None => kept_layout(current.layout),
                }
                &&& req.icon == match changes.icon {
                    Some(e) => Icon::Emoji { emoji: e },
                    None => current_icon,
                }
                &&& req.properties@.len() == current.properties@.len()
                &&& forall|i: int| 0 <= i < current.properties@.len()
                    ==> carries_property(#[trigger] req.properties@[i], current.properties@[i])
            }),
    {
        let layout = match changes.layout {
            Some(l) => match parse_layout(l.as_str()) {
                Ok(lay) => lay,
                Err(detail) => {
                    return Err(layout_error(detail.as_str()));
                },
            },
            None => match current.layout {
                Some(l) => match parse_layout(l.as_str()) {
                    Ok(lay) => lay,
                    Err(_) => Layout::Basic,
                },
                None => Layout::Basic,
            },
        };
        let name = match changes.new_name {
            Some(n) => n,
            None => current.name,
        };
        let key = match changes.key {
            Some(k) => k,
            None => current.key,
        };
        let plural_name = match changes.plural_name {
            Some(p) => p,
            None => match current.plural_name {
                Some(p) => p,
                None => String::new(),
            },
        };
        let icon = match changes.icon {
            Some(emoji) => Icon::Emoji { emoji },
            None => current_icon,
        };
        let properties = properties_of(current.properties);
        Ok(UpdateTypeRequest { icon, key, layout, name, plural_name, properties })
    }
}

impl TypeDelete {
    /// The name the shell calls the command by.
    pub fn name(&self) -> (r: &'static str)
        ensures
            r@ == "anytype type delete"@,
    {
        "anytype type delete"
    }

    /// The description the shell shows for the command.
    pub fn description(&self) -> (r: &'static str)
        ensures
            r@ == "Delete (archive) a type"@,
    {
        "Delete (archive) a type"
    }
}

impl TypeCreate {
    /// What follows the API's answer: on success the whole cache is cleared, and what the API
    /// gave back is passed on; on failure the error says so and the cache
    /// stays as it was.
    pub fn settle<T>(resolver: &mut Resolver, outcome: Result<T, String>) -> (r: Result<T, LabeledError>)
        ensures
            match outcome {
                Ok(t) => r == Ok::<T, LabeledError>(t) && crate::cache::resolver::cache_cleared(*final(resolver), *old(resolver)),
                Err(d) => r matches Err(e) && super::plain_error(e, super::failure_text("create type"@, d@))
                    && *final(resolver) == *old(resolver),
            },
    {
        match outcome {
            Ok(t) => {
                resolver.clear_cache();
                Ok(t)
            },
            Err(d) => Err(super::failure("create type", d.as_str())),
        }
    }
}

impl TypeUpdate {
    /// What follows the API's answer: on success the cache forgets the type and what is cached under it, and what the API
    /// gave back is passed on; on failure the error says so and the cache
    /// stays as it was.
    pub fn settle<T>(resolver: &mut Resolver, space_id: &str, type_id: &str, outcome: Result<T, String>) -> (r: Result<T, LabeledError>)
        ensures
            match outcome {
                Ok(t) => r == Ok::<T, LabeledError>(t) && crate::cache::resolver::type_forgotten(*final(resolver), *old(resolver), space_id@, type_id@),
                Err(d) => r matches Err(e) && super::plain_error(e, super::failure_text("update type"@, d@))
                    && *final(resolver) == *old(resolver),
            },
    {
        match outcome {
            Ok(t) => {
                resolver.invalidate_type(space_id, type_id);
                Ok(t)
            },
            Err(d) => Err(super::failure("update type", d.as_str())),
        }
    }
}

impl TypeDelete {
    /// What follows the API's answer: on success the cache forgets the type and what is cached under it, and what the API
    /// gave back is passed on; on failure the error says so and the cache
    /// stays as it was.
    pub fn settle<T>(resolver: &mut Resolver, space_id: &str, type_id: &str, outcome: Result<T, String>) -> (r: Result<T, LabeledError>)
        ensures
            match outcome {
                Ok(t) => r == Ok::<T, LabeledError>(t) && crate::cache::resolver::type_forgotten(*final(resolver), *old(resolver), space_id@, type_id@),
                Err(d) => r matches Err(e) && super::plain_error(e, super::failure_text("delete type"@, d@))
                    && *final(resolver) == *old(resolver),
            },
    {
        match outcome {
            Ok(t) => {
                resolver.invalidate_type(space_id, type_id);
                Ok(t)
            },
            Err(d) => Err(super::failure("delete type", d.as_str())),
        }
    }
}

} // verus!
