//! Members module
//!
//! Handles member management operations.
use vstd::prelude::*;
use crate::api::types::Pagination;
use crate::json::JsonValue;

verus! {

/// Member information
#[derive(Debug, PartialEq)]
pub struct Member {
    /// The profile object id of the member
    pub id: String,
    /// The name of the member
    pub name: Option<String>,
    /// The global name of the member in the network (e.g., john.any)
    pub global_name: Option<String>,
    /// The identity of the member in the network
    pub identity: Option<String>,
    /// The data model of the object (should be "member")
    pub object: Option<String>,
    /// The role of the member
    pub role: MemberRole,
    /// The status of the member
    pub status: MemberStatus,
    /// Icon information
    pub icon: Option<JsonValue>,
}

/// Member role enum
/// Possible values: [viewer, editor, owner, no_permission]
#[derive(Debug, Clone, Copy, PartialEq, Eq, Structural)]
pub enum MemberRole {
    Viewer,
    Editor,
    Owner,
    NoPermission,
}

/// Member status enum
/// Possible values: [joining, active, removed, declined, removing, canceled]
#[derive(Debug, Clone, Copy, PartialEq, Eq, Structural)]
pub enum MemberStatus {
    Joining,
    Active,
    Removed,
    Declined,
    Removing,
    Canceled,
}

/// Response for getting a single member
#[derive(Debug, PartialEq)]
pub struct GetMemberResponse {
    pub member: Member,
}

/// Response for listing members
#[derive(Debug, PartialEq)]
pub struct ListMembersResponse {
    pub data: Vec<Member>,
    pub pagination: Pagination,
}

/// The path the members of a space are listed at.
pub fn members_path(space_id: &str) -> (p: String)
    ensures
        p@ == "/v1/spaces/"@ + space_id@ + "/members"@,
{
    crate::text::concat3("/v1/spaces/", space_id, "/members")
}

/// The path a member of a space is read at.
pub fn member_path(space_id: &str, member_id: &str) -> (p: String)
    ensures
        p@ == "/v1/spaces/"@ + space_id@ + "/members/"@ + member_id@,
{
    let p = crate::text::concat3("/v1/spaces/", space_id, "/members/");
    crate::text::concat(p.as_str(), member_id)
}

/// Whether a member is known by `name`, as its name or as its global name.
pub open spec fn member_named(m: Member, name: Seq<char>) -> bool {
    (m.name matches Some(n) && n@ == name) || (m.global_name matches Some(g) && g@ == name)
}

} // verus!
