//! Walks over the group tree that the database answers step by step.
//!
//! A group's path is found by looking up the group, then its parent, and
//! so on to the top, at most `PATH_WALK_LIMIT` lookups.  A group is
//! deleted after its subgroups: each group's children are listed, each
//! child is deleted in turn (with its own subgroups), and then the group.
//! The caller performs the lookups and deletions these walks ask for and
//! hands back what the database answered.
use vstd::prelude::*;
use crate::group::{group_path, upward_group_path};
use crate::query::{opt_string_view, strings_view};

verus! {

/// The most groups that a path walk looks up.
pub const PATH_WALK_LIMIT: u32 = 128;

/// A walk up from a group through its parents, collecting their names.
pub struct PathWalk {
    names: Vec<String>,
    lookups: u32,
    next: Option<String>,
}

impl PathWalk {
    /// The names met so far, the group's own first.
    pub closed spec fn names_view(&self) -> Seq<Seq<char>> {
        strings_view(self.names@)
    }

    /// The number of groups looked up so far.
    pub closed spec fn lookups(&self) -> nat {
        self.lookups as nat
    }

    /// The group to look up next, if the walk goes on.
    pub closed spec fn next_view(&self) -> Option<Seq<char>> {
        opt_string_view(self.next)
    }
}

/// A walk that starts at the group `group_id`.
pub fn path_walk_start(group_id: &str) -> (w: PathWalk)
    ensures
        w.names_view() == Seq::<Seq<char>>::empty(),
        w.lookups() == 0,
        w.next_view() == Some(group_id@),
{
    let w = PathWalk { names: Vec::new(), lookups: 0, next: Some(group_id.to_owned()) };
    assert(w.names_view() =~= Seq::<Seq<char>>::empty());
    w
}

/// The group that the walk asks to look up next: the parent reached last,
/// unless there is none or the walk has made its `PATH_WALK_LIMIT`
/// lookups.
pub open spec fn walk_target(next: Option<Seq<char>>, lookups: nat) -> Option<Seq<char>> {
    if lookups < PATH_WALK_LIMIT {
        next
    } else {
        None
    }
}

/// The group to look up next, or `None` when the walk is over.
pub fn path_walk_target(w: &PathWalk) -> (r: Option<String>)
    ensures
        opt_string_view(r) == walk_target(w.next_view(), w.lookups()),
{
    if w.lookups < PATH_WALK_LIMIT {
        match &w.next {
            Some(id) => Some(id.clone()),
            None => None,
        }
    } else {
        None
    }
}

/// The view of a looked-up row: the group's name and its parent, when the
/// group was found.
pub open spec fn row_view(row: Option<(Option<String>, Option<String>)>) -> Option<(Option<Seq<char>>, Option<Seq<char>>)> {
    match row {
        Some((name, parent)) => Some((opt_string_view(name), opt_string_view(parent))),
        None => None,
    }
}

/// Records the answer to the lookup of the walk's target: when the group
/// was found, its name (if it has one) joins the names and the walk goes
/// on to its parent; when it was not found, the walk is over.  While the
/// walk asks for no lookup, nothing changes.
pub fn path_walk_record(w: &mut PathWalk, row: Option<(Option<String>, Option<String>)>)
    ensures
        walk_target(old(w).next_view(), old(w).lookups()) is None ==> *final(w) == *old(w),
        walk_target(old(w).next_view(), old(w).lookups()) is Some ==> {
            &&& final(w).lookups() == old(w).lookups() + 1
            &&& match row_view(row) {
                Some((name, parent)) => {
                    &&& final(w).names_view() == match name {
                        Some(n) => old(w).names_view().push(n),
                        None => old(w).names_view(),
                    }
                    &&& final(w).next_view() == parent
                },
                None => {
                    &&& final(w).names_view() == old(w).names_view()
                    &&& final(w).next_view() is None
                },
            }
        },
{
    if w.lookups < PATH_WALK_LIMIT && w.next.is_some() {
        let ghost before = strings_view(w.names@);
        w.lookups = w.lookups + 1;
        match row {
            Some((name, parent)) => {
                match name {
                    Some(n) => {
                        w.names.push(n);
                        assert(strings_view(w.names@) =~= before.push(n@));
                    },
                    None => {},
                }
                w.next = parent;
            },
            None => {
                w.next = None;
            },
        }
    }
}

/// The path of the group the walk started at, from the names met.
pub fn path_walk_path(w: &PathWalk) -> (r: String)
    ensures
        r@ == group_path(w.names_view()),
{
    upward_group_path(&w.names)
}

/// A walk never makes more than `PATH_WALK_LIMIT` lookups: one that has
/// made that many asks for no further lookup.
pub proof fn lemma_path_walk_bounded(next: Option<Seq<char>>, lookups: nat)
    requires
        lookups >= PATH_WALK_LIMIT,
    ensures
        walk_target(next, lookups) is None,
{
}

/// The deletion of a group and its subgroups: the groups still to finish,
/// the one to finish first last, each with whether its children have been
/// listed.
pub struct GroupDeletion {
    pending: Vec<(String, bool)>,
}

/// The view of a list of pending groups.
pub open spec fn pending_view(p: Seq<(String, bool)>) -> Seq<(Seq<char>, bool)> {
    p.map_values(|e: (String, bool)| (e.0@, e.1))
}

impl GroupDeletion {
    /// The groups still to finish, the next one last.
    pub closed spec fn pending(&self) -> Seq<(Seq<char>, bool)> {
        pending_view(self.pending@)
    }
}

/// What the deletion asks for next.
pub enum DeletionStep {
    /// List the children of this group.
    ListChildren(String),
    /// Delete this group's own rows; its subgroups are gone.
    Delete(String),
    /// Every group has been deleted.
    Done,
}

/// The view of a deletion step.
pub enum DeletionStepView {
    ListChildren(Seq<char>),
    Delete(Seq<char>),
    Done,
}

pub open spec fn deletion_step_view(s: DeletionStep) -> DeletionStepView {
    match s {
        DeletionStep::ListChildren(id) => DeletionStepView::ListChildren(id@),
        DeletionStep::Delete(id) => DeletionStepView::Delete(id@),
        DeletionStep::Done => DeletionStepView::Done,
    }
}

/// The step for the pending groups: the last one's children are listed
/// first, and it is deleted once they are; nothing is left to do when no
/// group is pending.
pub open spec fn deletion_step_of(p: Seq<(Seq<char>, bool)>) -> DeletionStepView {
    if p.len() == 0 {
        DeletionStepView::Done
    } else if p.last().1 {
        DeletionStepView::Delete(p.last().0)
    } else {
        DeletionStepView::ListChildren(p.last().0)
    }
}

/// The deletion of the group `group_id`, which starts by listing its
/// children.
pub fn deletion_start(group_id: &str) -> (d: GroupDeletion)
    ensures
        d.pending() == seq![(group_id@, false)],
{
    let mut pending: Vec<(String, bool)> = Vec::new();
    pending.push((group_id.to_owned(), false));
    let d = GroupDeletion { pending };
    assert(d.pending() =~= seq![(group_id@, false)]);
    d
}

/// What the deletion asks for next.
pub fn deletion_step(d: &GroupDeletion) -> (r: DeletionStep)
    ensures
        deletion_step_view(r) == deletion_step_of(d.pending()),
{
    let n = d.pending.len();
    if n == 0 {
        DeletionStep::Done
    } else {
        let (id, listed) = &d.pending[n - 1];
        if *listed {
            DeletionStep::Delete(id.clone())
        } else {
            DeletionStep::ListChildren(id.clone())
        }
    }
}

/// The children frames pushed for `children`: the first child last, so
/// that it is finished first.
pub open spec fn child_frames(children: Seq<Seq<char>>) -> Seq<(Seq<char>, bool)> {
    children.reverse().map_values(|c: Seq<char>| (c, false))
}

/// Records the children listed for the group asked about: that group's
/// children count as listed, and each child is to be finished before it,
/// the first child first.  When the deletion asked for no listing,
/// nothing changes.
pub fn deletion_children(d: &mut GroupDeletion, children: Vec<String>)
    ensures
        deletion_step_of(old(d).pending()) is ListChildren ==> final(d).pending() == old(d).pending().update(
            old(d).pending().len() - 1,
            (old(d).pending().last().0, true),
        ) + child_frames(strings_view(children@)),
        !(deletion_step_of(old(d).pending()) is ListChildren) ==> final(d).pending() == old(d).pending(),
{
    let n = d.pending.len();
    if n == 0 || d.pending[n - 1].1 {
        return;
    }
    let ghost before = d.pending();
    let ghost kids = strings_view(children@);
    let id = d.pending[n - 1].0.clone();
    d.pending.set(n - 1, (id, true));
    let ghost marked = d.pending();
    assert(marked =~= before.update(n - 1, (before.last().0, true)));
    let mut i = children.len();
    assert(child_frames(kids.subrange(i as int, kids.len() as int)) =~= Seq::<(Seq<char>, bool)>::empty());
    assert(d.pending() =~= marked + child_frames(kids.subrange(i as int, kids.len() as int)));
    while i > 0
        invariant
            i <= children.len(),
            kids == strings_view(children@),
            d.pending() == marked + child_frames(kids.subrange(i as int, kids.len() as int)),
        decreases i,
    {
        i = i - 1;
        let ghost prev = d.pending();
        d.pending.push((children[i].clone(), false));
        assert(child_frames(kids.subrange(i as int, kids.len() as int)) =~= child_frames(
            kids.subrange(i + 1, kids.len() as int),
        ).push((kids[i as int], false)));
        assert(d.pending() =~= prev.push((kids[i as int], false)));
    }
    assert(kids.subrange(0, kids.len() as int) =~= kids);
}

/// Records that the group the deletion asked to delete is gone.  When the
/// deletion asked for no deletion, nothing changes.
pub fn deletion_deleted(d: &mut GroupDeletion)
    ensures
        deletion_step_of(old(d).pending()) is Delete ==> final(d).pending() == old(d).pending().drop_last(),
        !(deletion_step_of(old(d).pending()) is Delete) ==> final(d).pending() == old(d).pending(),
{
    let n = d.pending.len();
    if n > 0 && d.pending[n - 1].1 {
        let ghost before = d.pending();
        d.pending.pop();
        assert(d.pending() =~= before.drop_last());
    }
}

} // verus!
