//! The `anytype property` commands.
use vstd::prelude::*;
use crate::cache::resolver::Resolver;
use super::{labeled_error, LabeledError};
use crate::api::client::properties::format_of_name;
use crate::api::{CreatePropertyRequest, Property, PropertyFormat, UpdatePropertyRequest};
use crate::text::{ascii_folded, concat, concat3, is_ascii_text, lowercase, owned, to_lowercase};
use crate::value::AnytypeValue;

verus! {

/// Command: anytype property list
pub struct PropertyList;

/// Command: anytype property get
pub struct PropertyGet;

/// Command: anytype property create
pub struct PropertyCreate;

/// Command: anytype property update
pub struct PropertyUpdate;

/// Command: anytype property delete
pub struct PropertyDelete;

/// The text naming the valid formats in an error.
pub open spec fn format_choices() -> Seq<char> {
    "text, number, select, multi_select, date, files, checkbox, url, email, phone, objects"@
}

/// The error text of a format name that names no format.
pub open spec fn invalid_format_text(format: Seq<char>) -> Seq<char> {
    "Invalid format: "@ + format + ". Valid options: "@ + format_choices()
}

/// Helper function to parse property format string: the name is read
/// without regard to case.
pub fn parse_property_format(format_str: &str) -> (r: Result<PropertyFormat, String>)
    ensures
        match format_of_name(lowercase(format_str@)) {
            Some(f) => r == Ok::<PropertyFormat, String>(f),
            None => r matches Err(e) && e@ == invalid_format_text(format_str@),
        },
        is_ascii_text(format_str@) ==> match format_of_name(ascii_folded(format_str@)) {
            Some(f) => r == Ok::<PropertyFormat, String>(f),
            None => r is Err,
        },
{
    let lower = to_lowercase(format_str);
    match PropertyFormat::from_api_name(lower.as_str()) {
        Some(f) => Ok(f),
        None => {
            let head = concat3("Invalid format: ", format_str, ". Valid options: ");
            Err(concat(head.as_str(), "text, number, select, multi_select, date, files, checkbox, url, email, phone, objects"))
        },
    }
}

/// The format given to a property command, parsed; a format that names
/// none is an error labelled `Invalid format`.
fn parse_format_flag(format_str: &str) -> (r: Result<PropertyFormat, LabeledError>)
    ensures
        match format_of_name(lowercase(format_str@)) {
            Some(f) => r == Ok::<PropertyFormat, LabeledError>(f),
            None => r matches Err(e) && labeled_error(e, invalid_format_text(format_str@), "Invalid format"@),
        },
{
    match parse_property_format(format_str) {
        Ok(f) => Ok(f),
        Err(msg) => Err(LabeledError { msg, label: Some(owned("Invalid format")) }),
    }
}

/// Whether `v` is the property `p`, in the given space, with no type.
pub open spec fn property_value_of(v: AnytypeValue, p: Property, space_id: Seq<char>) -> bool {
    v matches AnytypeValue::Property { id, name, key, format, space_id: s, type_id }
        && id == p.id && name == p.name && key == p.key && format == p.format && s@ == space_id
        && type_id@.len() == 0
}

impl PropertyList {
    /// The name the shell calls the command by.
    pub fn name(&self) -> (r: &'static str)
        ensures
            r@ == "anytype property list"@,
    {
        "anytype property list"
    }

    /// The description the shell shows for the command.
    pub fn description(&self) -> (r: &'static str)
        ensures
            r@ == "List all properties in a space"@,
    {
        "List all properties in a space"
    }

    /// The properties listed, each in the space it was listed in; listing
    /// the space's properties, no type is known.
    pub fn values(properties: Vec<Property>, space_id: &str) -> (r: Vec<AnytypeValue>)
        ensures
            r@.len() == properties@.len(),
            forall|i: int| 0 <= i < properties@.len() ==> property_value_of(#[trigger] r@[i], properties@[i], space_id@),
    {
        let mut out: Vec<AnytypeValue> = Vec::new();
        let mut rest = properties;
        let ghost all = rest@;
        while rest.len() > 0
            invariant
                out@.len() + rest@.len() == all.len(),
                rest@ == all.subrange(out@.len() as int, all.len() as int),
                forall|i: int| 0 <= i < out@.len() ==> property_value_of(#[trigger] out@[i], all[i], space_id@),
            decreases rest.len(),
        {
            let p = rest.remove(0);
            proof {
                assert(p == all[out@.len() as int]);
            }
            out.push(PropertyGet::value(p, space_id));
        }
        out
    }
}

impl PropertyGet {
    /// The name the shell calls the command by.
    pub fn name(&self) -> (r: &'static str)
        ensures
            r@ == "anytype property get"@,
    {
        "anytype property get"
    }

    /// The description the shell shows for the command.
    pub fn description(&self) -> (r: &'static str)
        ensures
            r@ == "Get a property by name"@,
    {
        "Get a property by name"
    }

    /// A property of a space as the shell sees it: in its space, with no type.
    pub fn value(property: Property, space_id: &str) -> (v: AnytypeValue)
        ensures
            property_value_of(v, property, space_id@),
    {
        AnytypeValue::from_property(property, owned(space_id), String::new())
    }
}

impl PropertyCreate {
    /// The name the shell calls the command by.
    pub fn name(&self) -> (r: &'static str)
        ensures
            r@ == "anytype property create"@,
    {
        "anytype property create"
    }

    /// The description the shell shows for the command.
    pub fn description(&self) -> (r: &'static str)
        ensures
            r@ == "Create a new property in a space"@,
    {
        "Create a new property in a space"
    }

    /// The request creating the property, with the format given (text where
    /// none is).
    pub fn request(name: String, format: Option<String>) -> (r: Result<CreatePropertyRequest, LabeledError>)
        ensures
            match format {
                None => r matches Ok(req) && req.name == name && req.format == PropertyFormat::Text,
                Some(f) => match format_of_name(lowercase(f@)) {
                    Some(fmt) => r matches Ok(req) && req.name == name && req.format == fmt,
                    None => r matches Err(e) && labeled_error(e, invalid_format_text(f@), "Invalid format"@),
                },
            },
    {
        let format = match format {
            None => PropertyFormat::Text,
            Some(f) => match parse_format_flag(f.as_str()) {
                Ok(fmt) => fmt,
                Err(e) => {
                    return Err(e);
                },
            },
        };
        Ok(CreatePropertyRequest { name, format })
    }
}

impl PropertyUpdate {
    /// The name the shell calls the command by.
    pub fn name(&self) -> (r: &'static str)
        ensures
            r@ == "anytype property update"@,
    {
        "anytype property update"
    }

    /// The description the shell shows for the command.
    pub fn description(&self) -> (r: &'static str)
        ensures
            r@ == "Update an existing property in a space"@,
    {
        "Update an existing property in a space"
    }

    /// The request updating the property: the name and the format given,
    /// each kept from the current property where not given.
    pub fn request(new_name: Option<String>, format: Option<String>, current: &Property) -> (r: Result<UpdatePropertyRequest, LabeledError>)
        ensures
            ({
                let name = match new_name {
                    Some(n) => n@,
                    None => current.name@,
                };
                let f = match format {
                    Some(f) => f@,
                    None => current.format@,
                };
                match format_of_name(lowercase(f)) {
                    Some(fmt) => r matches Ok(req) && req.name@ == name && req.format == fmt,
                    None => r matches Err(e) && labeled_error(e, invalid_format_text(f), "Invalid format"@),
                }
            }),
    {
        let name = match new_name {
            Some(n) => n,
            None => current.name.clone(),
        };
        let format_text = match format {
            Some(f) => f,
            None => current.format.clone(),
        };
        let format = match parse_format_flag(format_text.as_str()) {
            Ok(fmt) => fmt,
            Err(e) => {
                return Err(e);
            },
        };
        Ok(UpdatePropertyRequest { name, format })
    }
}

impl PropertyDelete {
    /// The name the shell calls the command by.
    pub fn name(&self) -> (r: &'static str)
        ensures
            r@ == "anytype property delete"@,
    {
        "anytype property delete"
    }

    /// The description the shell shows for the command.
    pub fn description(&self) -> (r: &'static str)
        ensures
            r@ == "Delete (archive) a property in a space"@,
    {
        "Delete (archive) a property in a space"
    }
}

/// The two readings of a format name agree: where `property create` and
/// `property update` accept a name, `type update` reads it as the same
/// format, and where they refuse it, `type update` reads it as text.
pub proof fn law_format_readings_agree(format: Seq<char>)
    ensures
        match format_of_name(lowercase(format)) {
            Some(f) => super::types::format_or_text(format) == f,
            None => super::types::format_or_text(format) == PropertyFormat::Text,
        },
{
}

impl PropertyCreate {
    /// What follows the API's answer: on success the cache forgets the space and what is cached under it, and what the API
    /// gave back is passed on; on failure the error says so and the cache
    /// stays as it was.
    pub fn settle<T>(resolver: &mut Resolver, space_id: &str, outcome: Result<T, String>) -> (r: Result<T, LabeledError>)
        ensures
            match outcome {
                Ok(t) => r == Ok::<T, LabeledError>(t) && crate::cache::resolver::space_forgotten(*final(resolver), *old(resolver), space_id@),
                Err(d) => r matches Err(e) && super::plain_error(e, super::failure_text("create property"@, d@))
                    && *final(resolver) == *old(resolver),
            },
    {
        match outcome {
            Ok(t) => {
                resolver.invalidate_space(space_id);
                Ok(t)
            },
            Err(d) => Err(super::failure("create property", d.as_str())),
        }
    }
}

impl PropertyUpdate {
    /// What follows the API's answer: on success the cache forgets the space and what is cached under it, and what the API
    /// gave back is passed on; on failure the error says so and the cache
    /// stays as it was.
    pub fn settle<T>(resolver: &mut Resolver, space_id: &str, outcome: Result<T, String>) -> (r: Result<T, LabeledError>)
        ensures
            match outcome {
                Ok(t) => r == Ok::<T, LabeledError>(t) && crate::cache::resolver::space_forgotten(*final(resolver), *old(resolver), space_id@),
                Err(d) => r matches Err(e) && super::plain_error(e, super::failure_text("update property"@, d@))
                    && *final(resolver) == *old(resolver),
            },
    {
        match outcome {
            Ok(t) => {
                resolver.invalidate_space(space_id);
                Ok(t)
            },
            Err(d) => Err(super::failure("update property", d.as_str())),
        }
    }
}

impl PropertyDelete {
    /// What follows the API's answer: on success the cache forgets the space and what is cached under it, and what the API
    /// gave back is passed on; on failure the error says so and the cache
    /// stays as it was.
    pub fn settle<T>(resolver: &mut Resolver, space_id: &str, outcome: Result<T, String>) -> (r: Result<T, LabeledError>)
        ensures
            match outcome {
                Ok(t) => r == Ok::<T, LabeledError>(t) && crate::cache::resolver::space_forgotten(*final(resolver), *old(resolver), space_id@),
                Err(d) => r matches Err(e) && super::plain_error(e, super::failure_text("delete property"@, d@))
                    && *final(resolver) == *old(resolver),
            },
    {
        match outcome {
            Ok(t) => {
                resolver.invalidate_space(space_id);
                Ok(t)
            },
            Err(d) => Err(super::failure("delete property", d.as_str())),
        }
    }
}

} // verus!
