//! The `anytype member` commands.
use vstd::prelude::*;
use super::{plain_error, LabeledError};
use crate::api::client::members::member_named;
use crate::api::Member;
use crate::cache::resolver::is_first;
use crate::text::{concat, owned, same_text};
use crate::value::AnytypeValue;

verus! {

/// Command: anytype member list
pub struct MemberList;

/// Command: anytype member get
pub struct MemberGet;

/// Whether `v` is the member `m`, in the given space.
pub open spec fn member_value_of(v: AnytypeValue, m: Member, space_id: Seq<char>) -> bool {
    v matches AnytypeValue::Member { id, name, global_name, role, status, space_id: s }
        && id == m.id && name == m.name && global_name == m.global_name && role == m.role && status == m.status
        && s@ == space_id
}

/// Whether a member goes by `name`, as its name or its global name.
pub open spec fn goes_by(name: Seq<char>) -> spec_fn(Member) -> bool {
    |m: Member| member_named(m, name)
}

impl MemberList {
    /// The name the shell calls the command by.
    pub fn name(&self) -> (r: &'static str)
        ensures
            r@ == "anytype member list"@,
    {
        "anytype member list"
    }

    /// The description the shell shows for the command.
    pub fn description(&self) -> (r: &'static str)
        ensures
            r@ == "List all members in a space"@,
    {
        "List all members in a space"
    }

    /// The members listed, each in the space it was listed in.
    pub fn values(members: Vec<Member>, space_id: &str) -> (r: Vec<AnytypeValue>)
        ensures
            r@.len() == members@.len(),
            forall|i: int| 0 <= i < members@.len() ==> member_value_of(#[trigger] r@[i], members@[i], space_id@),
    {
        let mut out: Vec<AnytypeValue> = Vec::new();
        let mut rest = members;
        let ghost all = rest@;
        while rest.len() > 0
            invariant
                out@.len() + rest@.len() == all.len(),
                rest@ == all.subrange(out@.len() as int, all.len() as int),
                forall|i: int| 0 <= i < out@.len() ==> member_value_of(#[trigger] out@[i], all[i], space_id@),
            decreases rest.len(),
        {
            let m = rest.remove(0);
            proof {
                assert(m == all[out@.len() as int]);
            }
            out.push(AnytypeValue::from_member(m, owned(space_id)));
        }
        out
    }
}

impl MemberGet {
    /// The name the shell calls the command by.
    pub fn name(&self) -> (r: &'static str)
        ensures
            r@ == "anytype member get"@,
    {
        "anytype member get"
    }

    /// The description the shell shows for the command.
    pub fn description(&self) -> (r: &'static str)
        ensures
            r@ == "Get a member by ID or name"@,
    {
        "Get a member by ID or name"
    }

    /// Where the member cannot be fetched by id: the first member of the
    /// space that goes by the name, as its name or its global name.
    pub fn find_by_name(members: Vec<Member>, name: &str) -> (r: Result<Member, LabeledError>)
        ensures
            match r {
                Ok(m) => exists|i: int| is_first(members@, i, goes_by(name@)) && m == members@[i],
                Err(e) => (forall|i: int| 0 <= i < members@.len() ==> !goes_by(name@)(#[trigger] members@[i]))
                    && plain_error(e, "No member found with ID or name "@ + super::single_quoted(name@)),
            },
    {
        let mut rest = members;
        let ghost all = rest@;
        let mut seen: usize = 0;
        let total = rest.len();
        while rest.len() > 0
            invariant
                all == members@,
                all.len() == total,
                seen + rest@.len() == all.len(),
                rest@ == all.subrange(seen as int, all.len() as int),
                forall|j: int| 0 <= j < seen ==> !goes_by(name@)(#[trigger] all[j]),
            decreases rest.len(),
        {
            let m = rest.remove(0);
            proof {
                assert(m == all[seen as int]);
            }
            let by_name = match &m.name {
                Some(n) => same_text(n.as_str(), name),
                None => false,
            };
            let by_global = match &m.global_name {
                Some(g) => same_text(g.as_str(), name),
                None => false,
            };
            if by_name || by_global {
                proof {
                    assert(is_first(all, seen as int, goes_by(name@)));
                }
                return Ok(m);
            }
            seen = seen + 1;
        }
        let q = super::quote(name);
        Err(LabeledError { msg: concat("No member found with ID or name ", q.as_str()), label: None })
    }
}

} // verus!
