//! The `anytype list` commands, on lists (collections) of objects.
use vstd::prelude::*;
use super::{labeled_error, Cell, CellView, LabeledError, Record, record_view};
use crate::json::JsonValue;
use crate::text::{concat, concat3, owned, usize_text, decimal};
use crate::value::AnytypeValue;

verus! {

/// Command: anytype list add
pub struct ListAdd;

/// Command: anytype list views
pub struct ListViews;

/// Command: anytype list objects
pub struct ListObjects;

/// Command: anytype list remove
pub struct ListRemove;

/// A view of a list, as far as the command shows it.
#[derive(Debug, Clone, PartialEq)]
pub struct ListView {
    pub id: String,
    pub name: String,
    pub layout: String,
    /// The number of filters of the view.
    pub filter_count: usize,
    /// The number of sorts of the view.
    pub sort_count: usize,
}

/// An object of a list, as far as the command reads it.
#[derive(Debug, PartialEq)]
pub struct ListedObject {
    pub id: String,
    pub name: String,
    /// The key of the object's type, as the object names it.
    pub object: String,
    /// The id of the object's type.
    pub type_id: String,
    /// The key of the object's type.
    pub type_key: String,
    pub properties: JsonValue,
    pub snippet: Option<String>,
}

/// The list a command works on: the id its name resolved to, or the name
/// itself taken as an id where it resolved to none.
pub fn list_id_or(resolved: Option<String>, identifier: String) -> (r: String)
    ensures
        r@ == match resolved {
            Some(id) => id@,
            None => identifier@,
        },
{
    match resolved {
        Some(id) => id,
        None => identifier,
    }
}

impl ListAdd {
    /// The name the shell calls the command by.
    pub fn name(&self) -> (r: &'static str)
        ensures
            r@ == "anytype list add"@,
    {
        "anytype list add"
    }

    /// The description the shell shows for the command.
    pub fn description(&self) -> (r: &'static str)
        ensures
            r@ == "Add objects to a list (collection)"@,
    {
        "Add objects to a list (collection)"
    }

    /// The objects to add, which the command requires, at least one.
    pub fn required_objects(objects: Option<Vec<String>>) -> (r: Result<Vec<String>, LabeledError>)
        ensures
            match objects {
                None => r matches Err(e) && labeled_error(e, "Missing --objects flag"@, "Object IDs required"@),
                Some(v) => if v@.len() == 0 {
                    r matches Err(e) && labeled_error(e, "No object IDs provided"@, "At least one object ID required"@)
                } else {
                    r == Ok::<Vec<String>, LabeledError>(v)
                },
            },
    {
        match objects {
            None => Err(LabeledError::labeled("Missing --objects flag", "Object IDs required")),
            Some(v) => if v.len() == 0 {
                Err(LabeledError::labeled("No object IDs provided", "At least one object ID required"))
            } else {
                Ok(v)
            },
        }
    }

    /// The message of a completed addition: the API's message and how many
    /// of the objects asked for were added.
    pub fn summary(message: &str, added: usize, requested: usize) -> (m: String)
        ensures
            m@ == message@ + " (Added "@ + decimal(added as nat) + " of "@ + decimal(requested as nat) + " objects)"@,
    {
        let a = usize_text(added);
        let r = usize_text(requested);
        let head = concat3(message, " (Added ", a.as_str());
        let m = concat3(head.as_str(), " of ", r.as_str());
        concat(m.as_str(), " objects)")
    }
}

impl ListViews {
    /// The name the shell calls the command by.
    pub fn name(&self) -> (r: &'static str)
        ensures
            r@ == "anytype list views"@,
    {
        "anytype list views"
    }

    /// The description the shell shows for the command.
    pub fn description(&self) -> (r: &'static str)
        ensures
            r@ == "Get views for a list (collection)"@,
    {
        "Get views for a list (collection)"
    }

    /// A view as the shell shows it.
    pub fn record(view: &ListView) -> (r: Record)
        ensures
            record_view(r) == seq![
                ("id"@, CellView::Text(view.id@)),
                ("name"@, CellView::Text(view.name@)),
                ("layout"@, CellView::Text(view.layout@)),
                ("filter_count"@, CellView::Int(view.filter_count as i64)),
                ("sort_count"@, CellView::Int(view.sort_count as i64)),
            ],
    {
        let mut r = Record::new();
        r.push("id", Cell::Text(view.id.clone()));
        r.push("name", Cell::Text(view.name.clone()));
        r.push("layout", Cell::Text(view.layout.clone()));
        r.push("filter_count", Cell::Int(view.filter_count as i64));
        r.push("sort_count", Cell::Int(view.sort_count as i64));
        r
    }
}

/// How many items a limit keeps: none for a negative limit.
pub open spec fn kept(len: nat, limit: Option<i64>) -> nat {
    match limit {
        Some(l) => if l <= 0 {
            0
        } else if l as nat <= len {
            l as nat
        } else {
            len
        },
        None => len,
    }
}

impl ListObjects {
    /// The name the shell calls the command by.
    pub fn name(&self) -> (r: &'static str)
        ensures
            r@ == "anytype list objects"@,
    {
        "anytype list objects"
    }

    /// The description the shell shows for the command.
    pub fn description(&self) -> (r: &'static str)
        ensures
            r@ == "Get objects in a list (collection)"@,
    {
        "Get objects in a list (collection)"
    }

    /// Apply limit if specified: the first objects, as many as the limit
    /// allows.
    pub fn limited(objects: Vec<ListedObject>, limit: Option<i64>) -> (r: Vec<ListedObject>)
        ensures
            r@ == objects@.take(kept(objects@.len(), limit) as int),
    {
        let mut objects = objects;
        let keep = kept_count(objects.len(), limit);
        objects.truncate(keep);
        objects
    }

    /// An object of a list as the shell sees it: in the list's space, with
    /// the id and key of its type and its snippet.
    pub fn value(obj: ListedObject, space_id: &str) -> (v: AnytypeValue)
        ensures
            v matches AnytypeValue::Object { id, name, properties, markdown, snippet, space_id: s, type_id, type_key }
                && id == obj.id && name == Some(obj.name) && properties == obj.properties && markdown is None
                && snippet == obj.snippet && s@ == space_id@ && type_id == obj.type_id && type_key == obj.type_key,
    {
        AnytypeValue::Object {
            id: obj.id,
            name: Some(obj.name),
            properties: obj.properties,
            markdown: None,
            snippet: obj.snippet,
            space_id: owned(space_id),
            type_id: obj.type_id,
            type_key: obj.type_key,
        }
    }
}

/// How many items of `len` a limit keeps.
fn kept_count(len: usize, limit: Option<i64>) -> (k: usize)
    ensures
        k == kept(len as nat, limit),
{
    match limit {
        Some(l) => if l <= 0 {
            0
        } else if (l as u64) <= (len as u64) {
            l as usize
        } else {
            len
        },
        None => len,
    }
}

impl ListRemove {
    /// The name the shell calls the command by.
    pub fn name(&self) -> (r: &'static str)
        ensures
            r@ == "anytype list remove"@,
    {
        "anytype list remove"
    }

    /// The description the shell shows for the command.
    pub fn description(&self) -> (r: &'static str)
        ensures
            r@ == "Remove an object from a list (collection)"@,
    {
        "Remove an object from a list (collection)"
    }

    /// The object to remove, which the command requires.
    pub fn required_object(object: Option<String>) -> (r: Result<String, LabeledError>)
        ensures
            match object {
                None => r matches Err(e) && labeled_error(e, "Missing --object flag"@, "Object ID required"@),
                Some(o) => r matches Ok(id) && id == o,
            },
    {
        match object {
            None => Err(LabeledError::labeled("Missing --object flag", "Object ID required")),
            Some(o) => Ok(o),
        }
    }
}

/// Limiting the objects of a list keeps a prefix of them: without a limit
/// all of them, in order; with a limit of zero or less none; with a
/// positive limit the first that many, or all where there are fewer.
pub proof fn law_limit_keeps_a_prefix(objects: Seq<ListedObject>, limit: Option<i64>)
    ensures
        kept(objects.len(), limit) <= objects.len(),
        limit is None ==> objects.take(kept(objects.len(), limit) as int) == objects,
        limit matches Some(l) ==> {
            &&& (l <= 0 ==> kept(objects.len(), limit) == 0)
            &&& (0 < l && l <= objects.len() ==> kept(objects.len(), limit) == l)
            &&& (l > objects.len() ==> objects.take(kept(objects.len(), limit) as int) == objects)
        },
{
    if limit is None {
        assert(objects.take(objects.len() as int) =~= objects);
    }
    if let Some(l) = limit {
        if l > objects.len() {
            assert(objects.take(objects.len() as int) =~= objects);
        }
    }
}

} // verus!
