//! Hook primitives built on the slot at the cursor.
use vstd::prelude::*;

use crate::component::{ctx_outcome, slot_taken, ComponentContext};
use crate::ref_store::{Slot, SlotKind};

verus! {

/// Work run by a hook that hands back the token of its cleanup.
pub trait Effect {
    fn run(&mut self) -> u64;
}

/// A handle to a `use_ref` slot, stable across ticks.
#[derive(Debug, Clone, Copy, PartialEq, Eq, Structural)]
pub struct Ref {
    pub index: usize,
}

/// The value a `use_ref` slot holds, if the slot at `i` is one.
pub open spec fn ref_value(refs: Seq<Slot>, i: int) -> Option<i64> {
    if 0 <= i < refs.len() {
        match refs[i] {
            Slot::Ref(v) => Some(v),
            _ => None,
        }
    } else {
        None
    }
}

/// Gets the next slot as a plain value, created from `init` on first use.
pub fn use_ref(ctx: &mut ComponentContext, init: i64) -> (r: Ref)
    requires
        ctx_outcome(*old(ctx), SlotKind::Ref) is Ok,
    ensures
        slot_taken(*old(ctx), *final(ctx), Slot::Ref(init), r.index),
{
    let index = ctx.next_ref(Slot::Ref(init));
    Ref { index }
}

impl Ref {
    pub fn get(&self, ctx: &ComponentContext) -> (r: Option<i64>)
        ensures
            r == ref_value(ctx.spec_refs().refs@, self.index as int),
    {
        if self.index < ctx.refs.refs.len() {
            match &ctx.refs.refs[self.index] {
                Slot::Ref(v) => Some(*v),
                _ => None,
            }
        } else {
            None
        }
    }

    /// Writes `value` into the slot; returns whether the slot is a `use_ref` slot.
    pub fn set(&self, ctx: &mut ComponentContext, value: i64) -> (r: bool)
        ensures
            r == (ref_value(old(ctx).spec_refs().refs@, self.index as int) is Some),
            r ==> final(ctx).spec_refs().refs@ == old(ctx).spec_refs().refs@.update(
                self.index as int,
                Slot::Ref(value),
            ),
            !r ==> final(ctx).spec_refs().refs@ == old(ctx).spec_refs().refs@,
            final(ctx).spec_tick() == old(ctx).spec_tick(),
            final(ctx).spec_accesser() == old(ctx).spec_accesser(),
            final(ctx).spec_refs().sealed == old(ctx).spec_refs().sealed,
    {
        if self.index < ctx.refs.refs.len() {
            let is_ref = match &ctx.refs.refs[self.index] {
                Slot::Ref(_) => true,
                _ => false,
            };
            if is_ref {
                ctx.refs.refs.set(self.index, Slot::Ref(value));
            }
            is_ref
        } else {
            false
        }
    }
}

/// Stores the cleanup `cleanup` in the next slot; it runs when the slot is disposed.
pub fn use_cleanup(ctx: &mut ComponentContext, cleanup: u64)
    requires
        ctx_outcome(*old(ctx), SlotKind::Cleanup) is Ok,
    ensures
        slot_taken(*old(ctx), *final(ctx), Slot::Cleanup(CleanupCell(cleanup)), old(ctx).spec_accesser().index),
{
    ctx.next_ref(Slot::Cleanup(CleanupCell::new(cleanup)));
}

/// Whether the slot requested next in `ctx` is created by this request.
pub open(crate) spec fn creates_slot(ctx: ComponentContext) -> bool {
    &&& ctx.accesser.index == ctx.spec_refs().refs@.len()
    &&& !ctx.accesser.sealed
}

/// Runs `init` once, when the slot is created, and keeps the cleanup token it
/// returns in the slot. Returns that token if `init` ran; otherwise `init` is
/// left as it was.
pub fn use_once<E: Effect>(ctx: &mut ComponentContext, init: &mut E) -> (r: Option<u64>)
    requires
        ctx_outcome(*old(ctx), SlotKind::Cleanup) is Ok,
    ensures
        r is Some == creates_slot(*old(ctx)),
        final(ctx).spec_accesser().index == old(ctx).spec_accesser().index + 1,
        r is None ==> final(ctx).spec_refs().refs@ == old(ctx).spec_refs().refs@ && *final(init) == *old(init),
        r matches Some(token) ==> final(ctx).spec_refs().refs@ == old(ctx).spec_refs().refs@.push(
            Slot::Cleanup(CleanupCell(token)),
        ),
        final(ctx).spec_tick() == old(ctx).spec_tick(),
        final(ctx).spec_accesser().sealed == old(ctx).spec_accesser().sealed,
        final(ctx).spec_refs().sealed == old(ctx).spec_refs().sealed,
{
    let fresh = ctx.accesser.index == ctx.refs.refs.len() && !ctx.accesser.sealed;
    let i = ctx.next_ref(Slot::Cleanup(CleanupCell::new(0)));
    if fresh {
        let token = init.run();
        ctx.refs.refs.set(i, Slot::Cleanup(CleanupCell::new(token)));
        Some(token)
    } else {
        None
    }
}

/// A value that can be cleaned up; running the cleanup records its token.
pub trait Cleanup: Sized {
    spec fn token(&self) -> u64;

    fn cleanup(&mut self, ran: &mut Vec<u64>)
        ensures
            final(ran)@ == old(ran)@.push(old(self).token()),
    ;
}

impl Cleanup for u64 {
    open spec fn token(&self) -> u64 {
        *self
    }

    fn cleanup(&mut self, ran: &mut Vec<u64>) {
        ran.push(*self);
    }
}

/// Holds a cleanup until it is replaced or disposed.
#[derive(Debug)]
pub struct CleanupCell<T: Cleanup>(pub T);

impl<T: Cleanup> CleanupCell<T> {
    pub fn new(cleanup: T) -> (r: CleanupCell<T>)
        ensures
            r.0 == cleanup,
    {
        CleanupCell(cleanup)
    }

    /// Runs the held cleanup, then holds `cleanup` instead.
    pub fn set(&mut self, cleanup: T, ran: &mut Vec<u64>)
        ensures
            final(self).0 == cleanup,
            final(ran)@ == old(ran)@.push(old(self).0.token()),
    {
        self.0.cleanup(ran);
        self.0 = cleanup;
    }
}

} // verus!
