//! The `anytype space` commands.
use vstd::prelude::*;
use crate::api::{CreateSpaceRequest, Space};
use crate::value::AnytypeValue;

verus! {

/// Command: anytype space list
pub struct SpaceList;

/// Command: anytype space get
pub struct SpaceGet;

/// Command: anytype space create
pub struct SpaceCreate;

/// Whether `v` is the space `s`.
pub open spec fn space_value_of(v: AnytypeValue, s: Space) -> bool {
    v == (AnytypeValue::Space { id: s.id, name: s.name, description: s.description, icon: s.icon })
}

impl SpaceList {
    /// The name the shell calls the command by.
    pub fn name(&self) -> (r: &'static str)
        ensures
            r@ == "anytype space list"@,
    {
        "anytype space list"
    }

    /// The description the shell shows for the command.
    pub fn description(&self) -> (r: &'static str)
        ensures
            r@ == "List all available spaces"@,
    {
        "List all available spaces"
    }

    /// The spaces listed.
    pub fn values(spaces: Vec<Space>) -> (r: Vec<AnytypeValue>)
        ensures
            r@.len() == spaces@.len(),
            forall|i: int| 0 <= i < spaces@.len() ==> space_value_of(#[trigger] r@[i], spaces@[i]),
    {
        let mut out: Vec<AnytypeValue> = Vec::new();
        let mut rest = spaces;
        let ghost all = rest@;
        while rest.len() > 0
            invariant
                out@.len() + rest@.len() == all.len(),
                rest@ == all.subrange(out@.len() as int, all.len() as int),
                forall|i: int| 0 <= i < out@.len() ==> space_value_of(#[trigger] out@[i], all[i]),
            decreases rest.len(),
        {
            let s = rest.remove(0);
            proof {
                assert(s == all[out@.len() as int]);
            }
            out.push(AnytypeValue::from_space(s));
        }
        out
    }
}

impl SpaceGet {
    /// The name the shell calls the command by.
    pub fn name(&self) -> (r: &'static str)
        ensures
            r@ == "anytype space get"@,
    {
        "anytype space get"
    }

    /// The description the shell shows for the command.
    pub fn description(&self) -> (r: &'static str)
        ensures
            r@ == "Get a space by name"@,
    {
        "Get a space by name"
    }
}

impl SpaceCreate {
    /// The name the shell calls the command by.
    pub fn name(&self) -> (r: &'static str)
        ensures
            r@ == "anytype space create"@,
    {
        "anytype space create"
    }

    /// The description the shell shows for the command.
    pub fn description(&self) -> (r: &'static str)
        ensures
            r@ == "Create a new space"@,
    {
        "Create a new space"
    }

    /// The request creating the space: its name and description.  The icon
    /// the command takes is not sent.
    pub fn request(name: String, description: Option<String>) -> (r: CreateSpaceRequest)
        ensures
            r.name == name,
            r.description == description,
    {
        CreateSpaceRequest { name, description }
    }
}

} // verus!
