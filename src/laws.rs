//! Laws of the hook discipline, stated over the models the operations use.
use vstd::prelude::*;

use crate::ref_store::{
    kind_of, next_ref_outcome, refs_after, under_visited, RefError, Slot, SlotKind, StateCell,
};
use crate::state::{armed, wakes_after_write, written};
use crate::container::{children_at, child_updated};

verus! {

/// A tick that requests each slot with the kind it was created with gets
/// that slot back at the same position, untouched; a state cell re-armed by
/// such a request keeps its value.
pub proof fn lemma_same_hooks_keep_slots(sealed: bool, refs: Seq<Slot>, i: int, init: Slot, w: u64)
    requires
        0 <= i < refs.len(),
        kind_of(init) == kind_of(refs[i]),
    ensures
        next_ref_outcome(sealed, i, refs, kind_of(init)) == Ok::<(), RefError>(()),
        refs_after(i, refs, init) == refs,
        refs[i] matches Slot::State(c) ==> armed(refs[i], w) == Slot::State(
            StateCell { value: c.value, waker: Some(w) },
        ),
{
}

/// A whole tick over a sealed store that requests, in order, one slot of
/// each stored kind: every request succeeds at its own position, the slots
/// stay as they were, and the pass ends fully visited.
pub proof fn lemma_same_pass_persists(refs: Seq<Slot>, inits: Seq<Slot>)
    requires
        inits.len() == refs.len(),
        forall|i: int| 0 <= i < refs.len() ==> kind_of(#[trigger] inits[i]) == kind_of(refs[i]),
    ensures
        forall|i: int|
            0 <= i < refs.len() ==> next_ref_outcome(true, i, refs, kind_of(#[trigger] inits[i]))
                == Ok::<(), RefError>(()) && refs_after(i, refs, inits[i]) == refs,
        !under_visited(true, refs.len() as int, refs.len() as int),
{
}

/// Once sealed, a store refuses a request past its last slot, and a pass
/// that stops short of its last slot is under-visited.
pub proof fn lemma_sealed_count_is_fixed(refs: Seq<Slot>, index: int, kind: SlotKind)
    requires
        0 <= index,
    ensures
        index >= refs.len() ==> next_ref_outcome(true, index, refs, kind) == Err::<(), RefError>(
            RefError::CountMismatch,
        ),
        index < refs.len() ==> under_visited(true, index, refs.len() as int),
{
}

/// A request with a kind other than the slot's own fails with a type
/// mismatch, sealed or not.
pub proof fn lemma_kind_is_fixed(sealed: bool, refs: Seq<Slot>, i: int, kind: SlotKind)
    requires
        0 <= i < refs.len(),
        kind != kind_of(refs[i]),
    ensures
        next_ref_outcome(sealed, i, refs, kind) == Err::<(), RefError>(RefError::TypeMismatch),
{
}

/// A write to an armed state cell delivers exactly its one wake; a second
/// write before re-arming delivers none.
pub proof fn lemma_one_wake_per_arming(wakes: Seq<u64>, c: StateCell, first: i64)
    requires
        c.waker is Some,
    ensures
        wakes_after_write(wakes, c) == wakes.push(c.waker->0),
        written(first) matches Slot::State(c1) && wakes_after_write(
            wakes_after_write(wakes, c),
            c1,
        ) == wakes.push(c.waker->0),
{
}

/// Children updated at later positions leave the first child as it was:
/// siblings mounting behind it never reset it.
pub proof fn lemma_first_child_outlives_siblings(
    pre: Seq<Slot>,
    post: Seq<Slot>,
    slot: int,
    index: int,
    id: u64,
)
    requires
        children_at(pre, slot) is Some,
        children_at(pre, slot)->0.len() >= 1,
        1 <= index,
        child_updated(pre, post, slot, index, id),
    ensures
        children_at(post, slot)->0[0] == children_at(pre, slot)->0[0],
{
}

} // verus!
