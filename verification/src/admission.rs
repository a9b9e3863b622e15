//! What a request body must satisfy before it is stored: a new group needs
//! a name, an identifier that is free and, when it names a parent, a
//! parent in the same realm; a realm's identifier cannot be changed.
use vstd::prelude::*;
use crate::clock::{generate_id, stamped_id};
use crate::query::opt_string_view;
use crate::text::{opt_view, str_eq};

verus! {

/// The fields of a new group's body that decide whether it is admitted:
/// each is present when the body holds it as a string.
pub struct NewGroupBody {
    pub id: Option<String>,
    pub name: Option<String>,
    pub parent_id: Option<String>,
}

/// A group about to be created.
pub struct NewGroup {
    pub id: String,
    pub name: String,
    pub parent: Option<String>,
}

/// Why a new group is refused.
#[derive(Clone, Copy, Debug, PartialEq, Eq, Structural)]
pub enum GroupRefusal {
    /// The body names no group name (400).
    NameRequired,
    /// A group with the identifier exists (409).
    AlreadyExists,
    /// The parent is not a group of the realm (404).
    ParentNotFound,
}

/// The status and the message that answer a refusal.
pub open spec fn refusal_answer(r: GroupRefusal) -> (u16, Seq<char>) {
    match r {
        GroupRefusal::NameRequired => (400, "name is required"@),
        GroupRefusal::AlreadyExists => (409, "group already exists"@),
        GroupRefusal::ParentNotFound => (404, "parent group not found"@),
    }
}

/// The status and the message that answer a refusal.
pub fn group_refusal_answer(r: GroupRefusal) -> (a: (u16, &'static str))
    ensures
        (a.0, a.1@) == refusal_answer(r),
{
    match r {
        GroupRefusal::NameRequired => (400, "name is required"),
        GroupRefusal::AlreadyExists => (409, "group already exists"),
        GroupRefusal::ParentNotFound => (404, "parent group not found"),
    }
}

/// The parent of a new group: the one the path names, or else the one
/// the body names.
pub open spec fn new_group_parent(parent_override: Option<Seq<char>>, body_parent: Option<Seq<char>>) -> Option<Seq<char>> {
    match parent_override {
        Some(p) => Some(p),
        None => body_parent,
    }
}

/// The group that a body describes: refused when it names no group name;
/// otherwise named as the body says, with the body's identifier or else a
/// new `group-` identifier, below the parent that the path names or else
/// the one the body names.
pub fn new_group(body: NewGroupBody, parent_override: Option<&str>) -> (r: Result<NewGroup, GroupRefusal>)
    ensures
        body.name is None <==> r is Err,
        r is Err ==> r == Err::<NewGroup, GroupRefusal>(GroupRefusal::NameRequired),
        r matches Ok(g) ==> {
            &&& g.name@ == body.name->0@
            &&& opt_string_view(g.parent) == new_group_parent(opt_view(parent_override), opt_string_view(body.parent_id))
            &&& (body.id matches Some(i) ==> g.id@ == i@)
            &&& (body.id is None ==> exists|n: nat| g.id@ == stamped_id("group"@, n))
        },
{
    let name = match body.name {
        Some(n) => n,
        None => return Err(GroupRefusal::NameRequired),
    };
    let id = match body.id {
        Some(i) => i,
        None => generate_id("group"),
    };
    let parent = match parent_override {
        Some(p) => Some(p.to_owned()),
        None => body.parent_id,
    };
    Ok(NewGroup { id, name, parent })
}

/// What to do next about a new group.
pub enum GroupCheck {
    /// Find out whether a group with this identifier exists.
    IdInUse(String),
    /// Find out whether this parent is a group of the realm.
    ParentInRealm(String),
    /// Refuse the group.
    Refuse(GroupRefusal),
    /// Store the group.
    Admit,
}

/// The view of a check.
pub enum GroupCheckView {
    IdInUse(Seq<char>),
    ParentInRealm(Seq<char>),
    Refuse(GroupRefusal),
    Admit,
}

pub open spec fn group_check_view(c: GroupCheck) -> GroupCheckView {
    match c {
        GroupCheck::IdInUse(i) => GroupCheckView::IdInUse(i@),
        GroupCheck::ParentInRealm(p) => GroupCheckView::ParentInRealm(p@),
        GroupCheck::Refuse(r) => GroupCheckView::Refuse(r),
        GroupCheck::Admit => GroupCheckView::Admit,
    }
}

/// The next check of a new group with identifier `id` and parent
/// `parent`, given what has been found out: first whether the identifier
/// is in use (refused if it is), then whether the parent, when there is
/// one, belongs to the realm (refused if it does not); admitted when both
/// pass.
pub open spec fn group_check_of(
    id: Seq<char>,
    parent: Option<Seq<char>>,
    id_in_use: Option<bool>,
    parent_found: Option<bool>,
) -> GroupCheckView {
    match id_in_use {
        None => GroupCheckView::IdInUse(id),
        Some(true) => GroupCheckView::Refuse(GroupRefusal::AlreadyExists),
        Some(false) => match parent {
            None => GroupCheckView::Admit,
            Some(p) => match parent_found {
                None => GroupCheckView::ParentInRealm(p),
                Some(false) => GroupCheckView::Refuse(GroupRefusal::ParentNotFound),
                Some(true) => GroupCheckView::Admit,
            },
        },
    }
}

/// The next check of a new group, given what has been found out so far.
pub fn group_check(g: &NewGroup, id_in_use: Option<bool>, parent_found: Option<bool>) -> (r: GroupCheck)
    ensures
        group_check_view(r) == group_check_of(g.id@, opt_string_view(g.parent), id_in_use, parent_found),
{
    match id_in_use {
        None => GroupCheck::IdInUse(g.id.clone()),
        Some(true) => GroupCheck::Refuse(GroupRefusal::AlreadyExists),
        Some(false) => match &g.parent {
            None => GroupCheck::Admit,
            Some(p) => match parent_found {
                None => GroupCheck::ParentInRealm(p.clone()),
                Some(false) => GroupCheck::Refuse(GroupRefusal::ParentNotFound),
                Some(true) => GroupCheck::Admit,
            },
        },
    }
}

/// Whether an update of a realm asks to change its identifier: the body
/// names an identifier (as a string) other than the realm's.
pub fn realm_id_conflict(requested: Option<&str>, existing: &str) -> (r: bool)
    ensures
        r == match opt_view(requested) {
            Some(i) => i != existing@,
            None => false,
        },
{
    match requested {
        Some(i) => !str_eq(i, existing),
        None => false,
    }
}

/// The parent that an update of a group must find in the realm: the one
/// the body names, unless it names none or names the empty string (which
/// moves the group to the top).
pub fn parent_to_check<'a>(requested: Option<&'a str>) -> (r: Option<&'a str>)
    ensures
        opt_view(r) == match opt_view(requested) {
            Some(p) => if p.len() > 0 { Some(p) } else { None },
            None => None,
        },
{
    match requested {
        Some(p) => if p.unicode_len() > 0 { Some(p) } else { None },
        None => None,
    }
}

} // verus!
