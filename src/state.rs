//! State cells that request another tick when written, and effects that
//! rerun when the state they depend on was written.
use vstd::prelude::*;

use crate::component::{ctx_outcome, ComponentContext};
use crate::hook::{Cleanup, CleanupCell, Effect};
use crate::ref_store::{Slot, SlotKind, StateCell};

verus! {

broadcast use vstd::std_specs::vec::group_vec_axioms;

/// A handle to a `use_state` slot, stable across ticks.
#[derive(Debug, Clone, Copy, PartialEq, Eq, Structural)]
pub struct StateRef {
    pub index: usize,
}

/// The cell of the `use_state` slot at `i`, if the slot at `i` is one.
pub open spec fn state_at(refs: Seq<Slot>, i: int) -> Option<StateCell> {
    if 0 <= i < refs.len() {
        match refs[i] {
            Slot::State(c) => Some(c),
            _ => None,
        }
    } else {
        None
    }
}

/// Whether the state at `i` was written since its wake token was last armed.
pub open spec fn state_changed(refs: Seq<Slot>, i: int) -> bool {
    match state_at(refs, i) {
        Some(c) => c.waker is None,
        None => false,
    }
}

/// The slot after `use_state` arms it with the waker `w`.
pub open spec fn armed(s: Slot, w: u64) -> Slot {
    match s {
        Slot::State(c) => Slot::State(StateCell { value: c.value, waker: Some(w) }),
        _ => s,
    }
}

/// The slot after a write of `value`: its wake token is spent.
pub open spec fn written(value: i64) -> Slot {
    Slot::State(StateCell { value, waker: None })
}

/// The wakes delivered by a write to the cell `c`: at most one, its token.
pub open spec fn wakes_after_write(wakes: Seq<u64>, c: StateCell) -> Seq<u64> {
    match c.waker {
        Some(w) => wakes.push(w),
        None => wakes,
    }
}

/// Gets the next slot as a state cell, created holding `init` on first use,
/// and arms it with the waker of this tick.
pub fn use_state(ctx: &mut ComponentContext, init: i64) -> (r: StateRef)
    requires
        ctx_outcome(*old(ctx), SlotKind::State) is Ok,
    ensures
        ({
            let taken = crate::ref_store::refs_after(
                r.index as int,
                old(ctx).spec_refs().refs@,
                Slot::State(StateCell { value: init, waker: None }),
            );
            &&& r.index == old(ctx).spec_accesser().index
            &&& final(ctx).spec_accesser().index == r.index + 1
            &&& final(ctx).spec_refs().refs@ == taken.update(
                r.index as int,
                armed(taken[r.index as int], old(ctx).spec_tick().waker),
            )
            &&& state_at(final(ctx).spec_refs().refs@, r.index as int) == Some(
                StateCell {
                    value: state_at(taken, r.index as int)->0.value,
                    waker: Some(old(ctx).spec_tick().waker),
                },
            )
        }),
        final(ctx).spec_tick() == old(ctx).spec_tick(),
        final(ctx).spec_accesser().sealed == old(ctx).spec_accesser().sealed,
        final(ctx).spec_refs().sealed == old(ctx).spec_refs().sealed,
{
    let index = ctx.next_ref(Slot::State(StateCell { value: init, waker: None }));
    let value = match &ctx.refs.refs[index] {
        Slot::State(c) => c.value,
        _ => init,
    };
    let waker = ctx.tick.waker;
    ctx.refs.refs.set(index, Slot::State(StateCell { value, waker: Some(waker) }));
    StateRef { index }
}

/// Whether a value a hook depends on was written since it was last armed.
pub trait State {
    spec fn changed_spec(&self, ctx: ComponentContext) -> bool;

    fn changed(&self, ctx: &ComponentContext) -> (r: bool)
        ensures
            r == self.changed_spec(*ctx),
    ;
}

impl State for StateRef {
    open spec fn changed_spec(&self, ctx: ComponentContext) -> bool {
        state_changed(ctx.spec_refs().refs@, self.index as int)
    }

    fn changed(&self, ctx: &ComponentContext) -> (r: bool) {
        if self.index < ctx.refs.refs.len() {
            match &ctx.refs.refs[self.index] {
                Slot::State(c) => c.waker.is_none(),
                _ => false,
            }
        } else {
            false
        }
    }
}

impl StateRef {
    /// Reads the value; reading never spends the wake token.
    pub fn get(&self, ctx: &ComponentContext) -> (r: Option<i64>)
        ensures
            r == (match state_at(ctx.spec_refs().refs@, self.index as int) {
                Some(c) => Some(c.value),
                None => None,
            }),
    {
        if self.index < ctx.refs.refs.len() {
            match &ctx.refs.refs[self.index] {
                Slot::State(c) => Some(c.value),
                _ => None,
            }
        } else {
            None
        }
    }

    /// Writes `value`. The first write after arming delivers the armed wake;
    /// later writes deliver none. Returns whether the slot is a state slot.
    pub fn set(&self, ctx: &mut ComponentContext, value: i64) -> (r: bool)
        ensures
            r == (state_at(old(ctx).spec_refs().refs@, self.index as int) is Some),
            r ==> {
                &&& final(ctx).spec_refs().refs@ == old(ctx).spec_refs().refs@.update(
                    self.index as int,
                    written(value),
                )
                &&& final(ctx).spec_tick().wakes@ == wakes_after_write(
                    old(ctx).spec_tick().wakes@,
                    state_at(old(ctx).spec_refs().refs@, self.index as int)->0,
                )
            },
            !r ==> final(ctx).spec_refs().refs@ == old(ctx).spec_refs().refs@ && final(ctx).spec_tick().wakes@ == old(ctx).spec_tick().wakes@,
            final(ctx).spec_tick().waker == old(ctx).spec_tick().waker,
            final(ctx).spec_tick().ran == old(ctx).spec_tick().ran,
            final(ctx).spec_accesser() == old(ctx).spec_accesser(),
            final(ctx).spec_refs().sealed == old(ctx).spec_refs().sealed,
    {
        if self.index < ctx.refs.refs.len() {
            let waker = match &ctx.refs.refs[self.index] {
                Slot::State(c) => Some(c.waker),
                _ => None,
            };
            match waker {
                Some(w) => {
                    if let Some(token) = w {
                        ctx.tick.wakes.push(token);
                    }
                    ctx.refs.refs.set(self.index, Slot::State(StateCell { value, waker: None }));
                    true
                },
                None => false,
            }
        } else {
            false
        }
    }
}

/// Whether any of `deps` was written since it was last armed.
pub open spec fn any_changed(refs: Seq<Slot>, deps: Seq<StateRef>) -> bool {
    exists|j: int| 0 <= j < deps.len() && state_changed(refs, #[trigger] deps[j].index as int)
}

/// Runs `effect` when its slot is created, and again on each tick in which a
/// dependency was written, running the previous cleanup first. Returns the
/// cleanup token `effect` handed back, if it ran.
pub fn use_effect<E: Effect>(ctx: &mut ComponentContext, effect: &mut E, deps: &Vec<StateRef>) -> (r:
    Option<u64>)
    requires
        ctx_outcome(*old(ctx), SlotKind::Cleanup) is Ok,
    ensures
        ({
            let i = old(ctx).spec_accesser().index as int;
            &&& final(ctx).spec_accesser().index == i + 1
            &&& final(ctx).spec_accesser().sealed == old(ctx).spec_accesser().sealed
            &&& final(ctx).spec_refs().sealed == old(ctx).spec_refs().sealed
            &&& final(ctx).spec_tick().wakes == old(ctx).spec_tick().wakes
            &&& final(ctx).spec_tick().waker == old(ctx).spec_tick().waker
            &&& final(ctx).spec_tick().systems == old(ctx).spec_tick().systems
            &&& r is Some == (crate::hook::creates_slot(*old(ctx)) || any_changed(
                old(ctx).spec_refs().refs@,
                deps@,
            ))
            &&& crate::hook::creates_slot(*old(ctx)) ==> (r matches Some(token) ==> {
                &&& final(ctx).spec_tick().ran == old(ctx).spec_tick().ran
                &&& final(ctx).spec_refs().refs@ == old(ctx).spec_refs().refs@.push(
                    Slot::Cleanup(CleanupCell(token)),
                )
            })
            &&& r is None ==> {
                &&& final(ctx).spec_tick().ran == old(ctx).spec_tick().ran
                &&& final(ctx).spec_refs().refs@ == old(ctx).spec_refs().refs@
                &&& *final(effect) == *old(effect)
            }
            &&& !crate::hook::creates_slot(*old(ctx)) ==> (r matches Some(token) ==> {
                &&& final(ctx).spec_tick().ran@ == old(ctx).spec_tick().ran@.push(
                    old(ctx).spec_refs().refs@[i]->Cleanup_0.0,
                )
                &&& final(ctx).spec_refs().refs@ == old(ctx).spec_refs().refs@.update(
                    i,
                    Slot::Cleanup(CleanupCell(token)),
                )
            })
        }),
{
    let fresh = ctx.accesser.index == ctx.refs.refs.len() && !ctx.accesser.sealed;
    let ghost refs0 = ctx.spec_refs().refs@;
    let i = ctx.next_ref(Slot::Cleanup(CleanupCell::new(0)));
    if fresh {
        let token = effect.run();
        ctx.refs.refs.set(i, Slot::Cleanup(CleanupCell::new(token)));
        return Some(token);
    }
    assert(ctx.spec_refs().refs@ == refs0);
    let mut changed = false;
    let mut k: usize = 0;
    while k < deps.len() && !changed
        invariant
            k <= deps@.len(),
            ctx.spec_refs().refs@ == refs0,
            changed == (exists|j: int| 0 <= j < k && state_changed(refs0, #[trigger] deps@[j].index as int)),
        decreases deps@.len() - k,
    {
        changed = deps[k].changed(ctx);
        k = k + 1;
    }
    if !changed {
        return None;
    }
    let mut taken = Slot::Ref(0);
    std::mem::swap(&mut taken, &mut ctx.refs.refs[i]);
    match taken {
        Slot::Cleanup(mut cell) => {
            cell.0.cleanup(&mut ctx.tick.ran);
            let token = effect.run();
            ctx.refs.refs.set(i, Slot::Cleanup(CleanupCell::new(token)));
            Some(token)
        },
        other => {
            ctx.refs.refs.set(i, other);
            None
        },
    }
}

} // verus!
