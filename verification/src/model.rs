//! The shared contract vocabulary of the two cell flavors.
//!
//! A cell's abstract state is an `Option<T>`: `None` while it is empty,
//! `Some(v)` once it has been initialized with `v`. The spec functions here
//! say how each operation may move a cell from one state to the next; the
//! contracts of both `unsync` and `sync` are written over them, and the
//! proof functions state the laws that every conforming sequence of
//! operations obeys.

use vstd::prelude::*;

verus! {

/// What `set` returns: success exactly when the cell was empty; an occupied
/// cell hands the offered value back to the caller unchanged.
pub open spec fn set_result<T>(before: Option<T>, value: T) -> Result<(), T> {
    if before is None {
        Ok(())
    } else {
        Err(value)
    }
}

/// The cell's contents after `set`: the offered value lands only in an empty
/// cell; an occupied cell is left untouched.
pub open spec fn cell_after_set<T>(before: Option<T>, value: T) -> Option<T> {
    if before is None {
        Some(value)
    } else {
        before
    }
}

/// How one `get_or_init` call may change a cell: an occupied cell keeps its
/// value, and an empty cell ends up holding exactly what the producer
/// yielded.
pub open spec fn init_transition<T>(before: Option<T>, after: Option<T>, produced: T) -> bool {
    if before is Some {
        after == before
    } else {
        after == Some(produced)
    }
}

/// How one `get_or_try_init` call may change a cell: an occupied cell keeps
/// its value; an empty cell holds the produced value when the producer
/// succeeded and stays empty when it failed.
pub open spec fn try_init_transition<T, E>(
    before: Option<T>,
    after: Option<T>,
    produced: Result<T, E>,
) -> bool {
    if before is Some {
        after == before
    } else {
        match produced {
            Ok(v) => after == Some(v),
            Err(_) => after is None,
        }
    }
}

/// At-most-once initialization: when two initialization attempts reach a cell
/// that starts empty, the first producer's value is the one stored, and the
/// second attempt, whatever value its producer could have yielded, observes
/// and keeps that same value.
pub proof fn lemma_at_most_once_initialization<T>(
    s0: Option<T>,
    s1: Option<T>,
    s2: Option<T>,
    v1: T,
    v2: T,
)
    requires
        s0 is None,
        init_transition(s0, s1, v1),
        init_transition(s1, s2, v2),
    ensures
        s1 == Some(v1),
        s2 == Some(v1),
{
}

/// The write-once invariant: no operation changes the contents of an occupied
/// cell, neither a `set` nor any further initialization attempt, successful
/// or failed.
pub proof fn lemma_occupied_cell_never_changes<T, E>(
    before: Option<T>,
    after: Option<T>,
    value: T,
    produced: T,
    tried: Result<T, E>,
)
    requires
        before is Some,
    ensures
        cell_after_set(before, value) == before,
        init_transition(before, after, produced) ==> after == before,
        try_init_transition(before, after, tried) ==> after == before,
{
}

/// First write wins: of two `set` calls reaching a cell that starts empty,
/// exactly one succeeds; the loser receives its own value back, and the cell
/// ends up holding the winner's value.
pub proof fn lemma_first_set_wins<T>(s0: Option<T>, v1: T, v2: T)
    requires
        s0 is None,
    ensures
        set_result(s0, v1) == Ok::<(), T>(()),
        cell_after_set(s0, v1) == Some(v1),
        set_result(cell_after_set(s0, v1), v2) == Err::<(), T>(v2),
        cell_after_set(cell_after_set(s0, v1), v2) == Some(v1),
{
}

/// Failure safety: a failed initialization attempt on an empty cell leaves it
/// empty, and a later attempt whose producer succeeds initializes the cell
/// normally.
pub proof fn lemma_failed_init_keeps_cell_empty<T, E>(
    s0: Option<T>,
    s1: Option<T>,
    s2: Option<T>,
    error: E,
    value: T,
)
    requires
        s0 is None,
        try_init_transition(s0, s1, Err::<T, E>(error)),
        try_init_transition(s1, s2, Ok::<T, E>(value)),
    ensures
        s1 is None,
        s2 == Some(value),
{
}

} // verus!
