//! Priorities of required actions and authentication executions.  A
//! priority moves by one step per request and never goes below zero; a
//! new execution without a priority comes after the last one of its flow.
use vstd::prelude::*;
use crate::route::RouteKind;

verus! {

/// The step a priority endpoint moves by: `lower-priority` takes one off,
/// `raise-priority` adds one; `None` for every other endpoint.
pub open spec fn step_of(k: RouteKind) -> Option<int> {
    match k {
        RouteKind::RequiredActionLowerPriority | RouteKind::AuthExecutionLowerPriority => Some(-1),
        RouteKind::RequiredActionRaisePriority | RouteKind::AuthExecutionRaisePriority => Some(1),
        _ => None,
    }
}

/// The step a priority endpoint moves by.
pub fn priority_step(k: RouteKind) -> (r: Option<i64>)
    ensures
        match r {
            Some(d) => step_of(k) == Some(d as int),
            None => step_of(k) is None,
        },
{
    match k {
        RouteKind::RequiredActionLowerPriority | RouteKind::AuthExecutionLowerPriority => Some(-1),
        RouteKind::RequiredActionRaisePriority | RouteKind::AuthExecutionRaisePriority => Some(1),
        _ => None,
    }
}

/// A priority moved by `delta`, held at zero from below.
pub open spec fn moved_priority(current: int, delta: int) -> int {
    if current + delta > 0 {
        current + delta
    } else {
        0
    }
}

/// The priority after a move by `delta`.
pub fn next_priority(current: i64, delta: i64) -> (r: i64)
    requires
        i64::MIN <= current + delta <= i64::MAX,
    ensures
        r == moved_priority(current as int, delta as int),
{
    let moved = current + delta;
    if moved > 0 {
        moved
    } else {
        0
    }
}

/// The priority of a new execution: one after the highest of its flow,
/// where a flow whose executions have no priority counts as `-1`; zero
/// when the lookup gave no row at all.
pub open spec fn appended_priority(row: Option<Option<i64>>) -> int {
    match row {
        Some(Some(m)) => m + 1,
        Some(None) => 0,
        None => 0,
    }
}

/// The priority of a new execution, from the row of its flow's highest
/// priority (`None` when there is no row, `Some(None)` when the highest
/// is absent).
pub fn next_execution_priority(row: Option<Option<i64>>) -> (r: i64)
    requires
        row != Some(Some(i64::MAX)),
    ensures
        r == appended_priority(row),
{
    match row {
        Some(Some(m)) => m + 1,
        _ => 0,
    }
}

/// Raising a priority and lowering it again gives it back, and so does
/// lowering it first when it is above zero.
pub proof fn lemma_priority_steps_undo(p: int)
    requires
        p >= 0,
    ensures
        moved_priority(moved_priority(p, 1), -1) == p,
        p > 0 ==> moved_priority(moved_priority(p, -1), 1) == p,
        moved_priority(0, -1) == 0,
{
}

} // verus!
