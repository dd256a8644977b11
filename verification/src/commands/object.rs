//! The `anytype object` commands.
use vstd::prelude::*;
use super::{labeled_error, plain_error, LabeledError};
use crate::api::{CreateObjectRequest, Object, UpdateObjectRequest};
use crate::text::{concat3, owned};
use crate::value::AnytypeValue;

verus! {

/// Command: anytype object list
pub struct ObjectList;

/// Command: anytype object get
pub struct ObjectGet;

/// Command: anytype object create
pub struct ObjectCreate;

/// Command: anytype object update
pub struct ObjectUpdate;

/// Command: anytype object delete
pub struct ObjectDelete;

/// The objects of a listing that name the key of their type, in order.
pub open spec fn keyed_objects(objects: Seq<Object>) -> Seq<Object>
    decreases objects.len(),
{
    if objects.len() == 0 {
        Seq::empty()
    } else {
        let prev = keyed_objects(objects.drop_last());
        if objects.last().object is Some {
            prev.push(objects.last())
        } else {
            prev
        }
    }
}

/// An object as the shell sees it: in its space, with the key of its type,
/// and the id that key resolved to in the space, or the key itself where it
/// resolved to none.
pub fn object_value(object: Object, space_id: &str, type_key: String, resolved_type_id: Option<String>) -> (v: AnytypeValue)
    ensures
        v matches AnytypeValue::Object { id, name, properties, markdown, snippet, space_id: s, type_id, type_key: k }
            && id == object.id && name == object.name && properties == object.properties && markdown is None
            && snippet is None && s@ == space_id@ && k == type_key
            && type_id@ == match resolved_type_id {
                Some(t) => t@,
                None => type_key@,
            },
{
    let type_id = match resolved_type_id {
        Some(t) => t,
        None => type_key.clone(),
    };
    AnytypeValue::from_object(object, owned(space_id), type_id, type_key)
}

/// The key of the type of an object the API returned, which the commands
/// require.
pub fn returned_type_key(object: &Object) -> (r: Result<String, LabeledError>)
    ensures
        match object.object {
            Some(k) => r matches Ok(key) && key@ == k@,
            None => r matches Err(e) && plain_error(e, "Object missing type key"@),
        },
{
    match &object.object {
        Some(k) => Ok(k.clone()),
        None => Err(LabeledError::new("Object missing type key")),
    }
}

impl ObjectList {
    /// The name the shell calls the command by.
    pub fn name(&self) -> (r: &'static str)
        ensures
            r@ == "anytype object list"@,
    {
        "anytype object list"
    }

    /// The description the shell shows for the command.
    pub fn description(&self) -> (r: &'static str)
        ensures
            r@ == "List all objects in a space"@,
    {
        "List all objects in a space"
    }

    /// The objects listed that name the key of their type; the others are
    /// skipped.
    pub fn keyed(objects: Vec<Object>) -> (r: Vec<Object>)
        ensures
            r@ == keyed_objects(objects@),
    {
        let mut out: Vec<Object> = Vec::new();
        let mut rest = objects;
        let ghost all = rest@;
        let ghost mut seen: int = 0;
        while rest.len() > 0
            invariant
                0 <= seen <= all.len(),
                seen + rest@.len() == all.len(),
                rest@ == all.subrange(seen, all.len() as int),
                out@ == keyed_objects(all.take(seen)),
            decreases rest.len(),
        {
            let o = rest.remove(0);
            proof {
                assert(o == all[seen]);
                assert(all.take(seen + 1).drop_last() =~= all.take(seen));
                assert(all.take(seen + 1).last() == all[seen]);
            }
            if o.object.is_some() {
                out.push(o);
            }
            proof {
                seen = seen + 1;
            }
        }
        proof {
            assert(all.take(seen) =~= all);
        }
        out
    }
}

impl ObjectGet {
    /// The name the shell calls the command by.
    pub fn name(&self) -> (r: &'static str)
        ensures
            r@ == "anytype object get"@,
    {
        "anytype object get"
    }

    /// The description the shell shows for the command.
    pub fn description(&self) -> (r: &'static str)
        ensures
            r@ == "Get an object by name"@,
    {
        "Get an object by name"
    }

    /// The key of the type of the object fetched, which the command requires.
    pub fn type_key(object: &Object) -> (r: Result<String, LabeledError>)
        ensures
            match object.object {
                Some(k) => r matches Ok(key) && key@ == k@,
                None => r matches Err(e) && plain_error(e, "Object "@ + object.id@ + " missing type key"@),
            },
    {
        match &object.object {
            Some(k) => Ok(k.clone()),
            None => Err(LabeledError { msg: concat3("Object ", object.id.as_str(), " missing type key"), label: None }),
        }
    }
}

impl ObjectCreate {
    /// The name the shell calls the command by.
    pub fn name(&self) -> (r: &'static str)
        ensures
            r@ == "anytype object create"@,
    {
        "anytype object create"
    }

    /// The description the shell shows for the command.
    pub fn description(&self) -> (r: &'static str)
        ensures
            r@ == "Create a new object in a space"@,
    {
        "Create a new object in a space"
    }

    /// The request creating the object: named, of the type given (a page
    /// where none is), with no properties.
    pub fn request(name: String, type_key: Option<String>) -> (r: CreateObjectRequest)
        ensures
            r.name == Some(name),
            r.type_key@ == match type_key {
                Some(k) => k@,
                None => "page"@,
            },
            r.properties is None,
    {
        let type_key = match type_key {
            Some(k) => k,
            None => owned("page"),
        };
        CreateObjectRequest { type_key, name: Some(name), properties: None }
    }
}

impl ObjectUpdate {
    /// The name the shell calls the command by.
    pub fn name(&self) -> (r: &'static str)
        ensures
            r@ == "anytype object update"@,
    {
        "anytype object update"
    }

    /// The description the shell shows for the command.
    pub fn description(&self) -> (r: &'static str)
        ensures
            r@ == "Update an existing object"@,
    {
        "Update an existing object"
    }

    /// The request updating the object, which needs a new name or new
    /// markdown.
    pub fn request(new_name: Option<String>, markdown: Option<String>) -> (r: Result<UpdateObjectRequest, LabeledError>)
        ensures
            (new_name is None && markdown is None) ==> (r matches Err(e) && labeled_error(
                e,
                "At least one field (--new-name or --markdown) must be provided to update"@,
                "Missing update parameters"@,
            )),
            !(new_name is None && markdown is None) ==> (r matches Ok(req) && req.name == new_name
                && req.markdown == markdown && req.properties is None),
    {
        if new_name.is_none() && markdown.is_none() {
            return Err(LabeledError::labeled(
                "At least one field (--new-name or --markdown) must be provided to update",
                "Missing update parameters",
            ));
        }
        Ok(UpdateObjectRequest { name: new_name, markdown, properties: None })
    }
}

impl ObjectDelete {
    /// The name the shell calls the command by.
    pub fn name(&self) -> (r: &'static str)
        ensures
            r@ == "anytype object delete"@,
    {
        "anytype object delete"
    }

    /// The description the shell shows for the command.
    pub fn description(&self) -> (r: &'static str)
        ensures
            r@ == "Delete (archive) an object in a space"@,
    {
        "Delete (archive) an object in a space"
    }
}

} // verus!
