//! The `anytype search` command.
use vstd::prelude::*;
use super::{plain_error, LabeledError};
use crate::api::{Object, SearchObject, SearchRequest, SearchSpaceRequest, Sort, SortDirection, SortProperty};
use crate::text::{concat, concat3, opt_view, same_text};
use crate::value::AnytypeValue;

verus! {

/// Command: anytype search
pub struct Search;

/// The sort property a name stands for.
pub open spec fn sort_property_of(name: Seq<char>) -> Option<SortProperty> {
    if name == "created_date"@ {
        Some(SortProperty::CreatedDate)
    } else if name == "last_modified_date"@ {
        Some(SortProperty::LastModifiedDate)
    } else if name == "last_opened_date"@ {
        Some(SortProperty::LastOpenedDate)
    } else if name == "name"@ {
        Some(SortProperty::Name)
    } else {
        None
    }
}

/// The sort direction a name stands for.
pub open spec fn sort_direction_of(name: Seq<char>) -> Option<SortDirection> {
    if name == "asc"@ {
        Some(SortDirection::Asc)
    } else if name == "desc"@ {
        Some(SortDirection::Desc)
    } else {
        None
    }
}

/// The error text of a sort property name that names none.
pub open spec fn invalid_sort_property_text(name: Seq<char>) -> Seq<char> {
    "Invalid sort property: "@ + name + ". Use one of: created_date, last_modified_date, last_opened_date, name"@
}

/// The error text of a sort direction name that names none.
pub open spec fn invalid_sort_direction_text(name: Seq<char>) -> Seq<char> {
    "Invalid sort direction: "@ + name + ". Use 'asc' or 'desc'"@
}

/// Where a search looks, and what it asks.
#[derive(Debug, Clone, PartialEq)]
pub enum SearchPlan {
    /// Search the objects of one space.
    InSpace { space_id: String, request: SearchSpaceRequest },
    /// Search across all spaces.
    Global(SearchRequest),
}

impl Search {
    /// The name the shell calls the command by.
    pub fn name(&self) -> (r: &'static str)
        ensures
            r@ == "anytype search"@,
    {
        "anytype search"
    }

    /// The description the shell shows for the command.
    pub fn description(&self) -> (r: &'static str)
        ensures
            r@ == "Search for objects across spaces or within a specific space"@,
    {
        "Search for objects across spaces or within a specific space"
    }

    /// Parse sort options.  With neither a property nor a direction there is
    /// no sort; with either, the other defaults to the last modified date,
    /// in descending order.  The names are matched exactly.
    pub fn sort(sort_property: Option<String>, sort_direction: Option<String>) -> (r: Result<Option<Sort>, LabeledError>)
        ensures
            (sort_property is None && sort_direction is None) ==> r == Ok::<Option<Sort>, LabeledError>(None),
            !(sort_property is None && sort_direction is None) ==> match sort_property {
                Some(p) => match sort_property_of(p@) {
                    None => r matches Err(e) && plain_error(e, invalid_sort_property_text(p@)),
                    Some(prop) => match sort_direction {
                        Some(d) => match sort_direction_of(d@) {
                            None => r matches Err(e) && plain_error(e, invalid_sort_direction_text(d@)),
                            Some(dir) => r == Ok::<Option<Sort>, LabeledError>(Some(Sort { direction: dir, property_key: prop })),
                        },
                        None => r == Ok::<Option<Sort>, LabeledError>(Some(Sort { direction: SortDirection::Desc, property_key: prop })),
                    },
                },
                None => match sort_direction {
                    Some(d) => match sort_direction_of(d@) {
                        None => r matches Err(e) && plain_error(e, invalid_sort_direction_text(d@)),
                        Some(dir) => r == Ok::<Option<Sort>, LabeledError>(
                            Some(Sort { direction: dir, property_key: SortProperty::LastModifiedDate }),
                        ),
                    },
                    None => false,
                },
            },
    {
        if sort_property.is_none() && sort_direction.is_none() {
            return Ok(None);
        }
        let property_key = match &sort_property {
            Some(p) => {
                let t = p.as_str();
                if same_text(t, "created_date") {
                    SortProperty::CreatedDate
                } else if same_text(t, "last_modified_date") {
                    SortProperty::LastModifiedDate
                } else if same_text(t, "last_opened_date") {
                    SortProperty::LastOpenedDate
                } else if same_text(t, "name") {
                    SortProperty::Name
                } else {
                    let msg = concat3(
                        "Invalid sort property: ",
                        t,
                        ". Use one of: created_date, last_modified_date, last_opened_date, name",
                    );
                    return Err(LabeledError { msg, label: None });
                }
            },
            None => SortProperty::LastModifiedDate,
        };
        let direction = match &sort_direction {
            Some(d) => {
                let t = d.as_str();
                if same_text(t, "asc") {
                    SortDirection::Asc
                } else if same_text(t, "desc") {
                    SortDirection::Desc
                } else {
                    let msg = concat3("Invalid sort direction: ", t, ". Use 'asc' or 'desc'");
                    return Err(LabeledError { msg, label: None });
                }
            },
            None => SortDirection::Desc,
        };
        Ok(Some(Sort { direction, property_key }))
    }

    /// Perform search based on whether we have a space: within the space
    /// where one was found, across all spaces otherwise.  The limit and the
    /// offset are converted as `as usize` converts them.
    pub fn plan(
        query: String,
        space_id: Option<String>,
        limit: Option<i64>,
        offset: Option<i64>,
        sort: Option<Sort>,
    ) -> (r: SearchPlan)
        ensures
            ({
                let lim = match limit {
                    Some(l) => Some(l as usize),
                    None => None::<usize>,
                };
                let off = match offset {
                    Some(o) => Some(o as usize),
                    None => None::<usize>,
                };
                match space_id {
                    Some(s) => r matches SearchPlan::InSpace { space_id: sid, request } && sid == s
                        && request.query == Some(query) && request.limit == lim && request.offset == off
                        && request.sort == sort,
                    None => r matches SearchPlan::Global(request) && request.query == Some(query)
                        && request.limit == lim && request.offset == off && request.sort == sort
                        && request.space_id is None,
                }
            }),
    {
        let lim: Option<usize> = match limit {
            Some(l) => Some(l as usize),
            None => None,
        };
        let off: Option<usize> = match offset {
            Some(o) => Some(o as usize),
            None => None,
        };
        match space_id {
            Some(s) => SearchPlan::InSpace {
                space_id: s,
                request: SearchSpaceRequest { query: Some(query), limit: lim, offset: off, sort },
            },
            None => SearchPlan::Global(SearchRequest { query: Some(query), limit: lim, offset: off, sort, space_id: None }),
        }
    }

    /// The error when the type key of a result cannot be resolved.
    pub fn type_key_failure(type_key: &str, detail: &str) -> (e: LabeledError)
        ensures
            plain_error(e, "Failed to resolve type key "@ + super::single_quoted(type_key@) + ": "@ + detail@),
    {
        let q = super::quote(type_key);
        let a = concat3("Failed to resolve type key ", q.as_str(), ": ");
        LabeledError { msg: concat(a.as_str(), detail), label: None }
    }

    /// A search result as the shell sees it: an object of the space it was
    /// found in, with its name, its type's key and the id that key resolved
    /// to in that space.
    pub fn result_value(found: SearchObject, type_id: String) -> (v: AnytypeValue)
        ensures
            v matches AnytypeValue::Object { id, name, properties, space_id, type_id: t, type_key, markdown, snippet } && {
                &&& id == found.id
                &&& opt_view(name) == Some(found.name@)
                &&& properties == found.properties
                &&& space_id == found.space_id
                &&& t == type_id
                &&& type_key == found.object
                &&& markdown is None
                &&& snippet is None
            },
    {
        let type_key = found.object;
        let space_id = found.space_id;
        let obj = Object {
            id: found.id,
            name: Some(found.name),
            space_id: Some(space_id.clone()),
            object: Some(type_key.clone()),
            properties: found.properties,
        };
        AnytypeValue::from_object(obj, space_id, type_id, type_key)
    }
}


/// The name the sort flag gives a sort property, as the command lists them
/// ("created_date, last_modified_date, last_opened_date, name").
pub open spec fn sort_property_name(p: SortProperty) -> Seq<char> {
    match p {
        SortProperty::CreatedDate => "created_date"@,
        SortProperty::LastModifiedDate => "last_modified_date"@,
        SortProperty::LastOpenedDate => "last_opened_date"@,
        SortProperty::Name => "name"@,
    }
}

/// The name the direction flag gives a sort direction.
pub open spec fn sort_direction_name(d: SortDirection) -> Seq<char> {
    match d {
        SortDirection::Asc => "asc"@,
        SortDirection::Desc => "desc"@,
    }
}

/// Each sort property is read from its own name and from no other, so two
/// names never give the same property; likewise each sort direction.
pub proof fn law_sort_names_round_trip(name: Seq<char>, other: Seq<char>, p: SortProperty, d: SortDirection)
    ensures
        sort_property_of(sort_property_name(p)) == Some(p),
        sort_property_of(name) matches Some(q) ==> sort_property_name(q) == name,
        sort_property_of(name) is Some && sort_property_of(name) == sort_property_of(other) ==> name == other,
        sort_direction_of(sort_direction_name(d)) == Some(d),
        sort_direction_of(name) matches Some(e) ==> sort_direction_name(e) == name,
{
    reveal_strlit("created_date");
    reveal_strlit("last_modified_date");
    reveal_strlit("last_opened_date");
    reveal_strlit("name");
    reveal_strlit("asc");
    reveal_strlit("desc");
    assert("created_date"@ != "last_modified_date"@) by { assert("created_date"@.len() != "last_modified_date"@.len()); }
    assert("created_date"@ != "last_opened_date"@) by { assert("created_date"@.len() != "last_opened_date"@.len()); }
    assert("created_date"@ != "name"@) by { assert("created_date"@.len() != "name"@.len()); }
    assert("last_modified_date"@ != "last_opened_date"@) by { assert("last_modified_date"@.len() != "last_opened_date"@.len()); }
    assert("last_modified_date"@ != "name"@) by { assert("last_modified_date"@.len() != "name"@.len()); }
    assert("last_opened_date"@ != "name"@) by { assert("last_opened_date"@.len() != "name"@.len()); }
    assert("asc"@ != "desc"@) by { assert("asc"@.len() != "desc"@.len()); }
}

} // verus!
