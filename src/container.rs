//! Nested components, reconciled by position.
use vstd::prelude::*;

use crate::component::{
    components_cleanups, ctx_outcome, slot_taken, Component, ComponentContext, ComponentFn,
};
use crate::hook::Ref;
use crate::ref_store::{RefError, RefStore, Slot, SlotKind};

verus! {

broadcast use vstd::std_specs::vec::group_vec_axioms;

/// The components held by the slot at `i`, if it is a children slot.
pub open spec fn children_at(refs: Seq<Slot>, i: int) -> Option<Seq<Component>> {
    if 0 <= i < refs.len() {
        match refs[i] {
            Slot::Children(cs) => Some(cs@),
            _ => None,
        }
    } else {
        None
    }
}

/// Where the `child` call that finds `len` components at cursor `index` runs.
pub open spec fn child_position(len: int, index: int) -> int {
    if len <= index {
        len
    } else {
        index
    }
}

/// The slots after the child at cursor `index` of the children slot `slot`
/// ran with the logic keyed `id`: only that child changed, and it is bound to
/// `id`; a child past the end was appended first.
pub open spec fn child_updated(pre: Seq<Slot>, post: Seq<Slot>, slot: int, index: int, id: u64) -> bool {
    let cs = children_at(pre, slot)->0;
    let pos = child_position(cs.len() as int, index);
    let after = children_at(post, slot)->0;
    &&& children_at(post, slot) is Some
    &&& post.len() == pre.len()
    &&& forall|j: int| 0 <= j < pre.len() && j != slot ==> post[j] == pre[j]
    &&& after.len() == (if cs.len() <= index { cs.len() + 1 } else { cs.len() })
    &&& after[pos].last_id == id
    &&& forall|j: int| 0 <= j < cs.len() && j != pos ==> after[j] == cs[j]
}

/// A handle to a children slot together with this tick's child cursor.
#[derive(Debug)]
pub struct Container {
    pub index: usize,
    pub slot: usize,
}

/// Gets the next slot as a growable sequence of children, with the cursor at 0.
pub fn use_container(ctx: &mut ComponentContext) -> (r: Container)
    requires
        ctx_outcome(*old(ctx), SlotKind::Children) is Ok,
    ensures
        r.index == 0,
        exists|cs: Vec<Component>|
            cs@.len() == 0 && #[trigger] slot_taken(
                *old(ctx),
                *final(ctx),
                Slot::Children(cs),
                r.slot,
            ),
{
    let empty: Vec<Component> = Vec::new();
    let ghost g = empty;
    let ghost pre = *ctx;
    let slot = ctx.next_ref(Slot::Children(empty));
    let r = Container { index: 0, slot };
    assert(slot_taken(pre, *ctx, Slot::Children(g), r.slot));
    r
}

/// Gets the next slot as a sequence of children that the caller sizes.
pub fn use_children(ctx: &mut ComponentContext) -> (r: Ref)
    requires
        ctx_outcome(*old(ctx), SlotKind::Children) is Ok,
    ensures
        exists|cs: Vec<Component>|
            cs@.len() == 0 && #[trigger] slot_taken(
                *old(ctx),
                *final(ctx),
                Slot::Children(cs),
                r.index,
            ),
{
    let empty: Vec<Component> = Vec::new();
    let ghost g = empty;
    let ghost pre = *ctx;
    let index = ctx.next_ref(Slot::Children(empty));
    let r = Ref { index };
    assert(slot_taken(pre, *ctx, Slot::Children(g), r.index));
    r
}

/// Gets the next slot as exactly one child, created on first use bound to
/// the logic keyed `id` with an empty store; later ticks get the same child
/// back, whatever `id` they pass. Run it with `update_child` at index 0.
pub fn use_child(ctx: &mut ComponentContext, id: u64) -> (r: Ref)
    requires
        ctx_outcome(*old(ctx), SlotKind::Children) is Ok,
    ensures
        exists|cs: Vec<Component>|
            cs@.len() == 1 && cs@[0].last_id == id && cs@[0].refs.refs@.len() == 0
                && !cs@[0].refs.sealed && #[trigger] slot_taken(
                *old(ctx),
                *final(ctx),
                Slot::Children(cs),
                r.index,
            ),
{
    let one: Vec<Component> = vec![Component { last_id: id, refs: RefStore::new() }];
    let ghost g = one;
    let ghost pre = *ctx;
    let index = ctx.next_ref(Slot::Children(one));
    let r = Ref { index };
    assert(slot_taken(pre, *ctx, Slot::Children(g), r.index));
    r
}

/// Updates the child held at `index` of the children slot `slot` with the
/// logic keyed `id`, creating the child when `index` is past the end.
pub fn update_child<R, F: ComponentFn<R>>(
    ctx: &mut ComponentContext,
    slot: usize,
    index: usize,
    id: u64,
    component_fn: &mut F,
) -> (r: Result<R, RefError>)
    ensures
        children_at(old(ctx).spec_refs().refs@, slot as int) is None ==> r == Err::<R, RefError>(
            RefError::TypeMismatch,
        ) && *final(ctx) == *old(ctx),
        children_at(old(ctx).spec_refs().refs@, slot as int) is Some ==> child_updated(
            old(ctx).spec_refs().refs@,
            final(ctx).spec_refs().refs@,
            slot as int,
            index as int,
            id,
        ),
        final(ctx).spec_accesser() == old(ctx).spec_accesser(),
        final(ctx).spec_refs().sealed == old(ctx).spec_refs().sealed,
        final(ctx).spec_tick().waker == old(ctx).spec_tick().waker,
{
    if slot >= ctx.refs.refs.len() {
        return Err(RefError::TypeMismatch);
    }
    let is_children = match &ctx.refs.refs[slot] {
        Slot::Children(_) => true,
        _ => false,
    };
    if !is_children {
        return Err(RefError::TypeMismatch);
    }
    let mut taken = Slot::Ref(0);
    std::mem::swap(&mut taken, &mut ctx.refs.refs[slot]);
    let mut cs = match taken {
        Slot::Children(cs) => cs,
        _ => Vec::new(),
    };
    let ghost cs0 = cs@;
    let pos = if cs.len() <= index {
        cs.push(Component::new());
        cs.len() - 1
    } else {
        index
    };
    let mut child = Component::new();
    std::mem::swap(&mut child, &mut cs[pos]);
    let r = child.update(&mut ctx.tick, id, component_fn);
    cs.set(pos, child);
    ctx.refs.refs.set(slot, Slot::Children(cs));
    r
}

impl Container {
    /// Updates the next child with the logic keyed `id` and moves the cursor on.
    pub fn child<R, F: ComponentFn<R>>(
        &mut self,
        ctx: &mut ComponentContext,
        id: u64,
        component_fn: &mut F,
    ) -> (r: Result<R, RefError>)
        ensures
            final(self).slot == old(self).slot,
            children_at(old(ctx).spec_refs().refs@, old(self).slot as int) is None || old(self).index
                == usize::MAX ==> r == Err::<R, RefError>(RefError::TypeMismatch) && *final(ctx)
                == *old(ctx) && *final(self) == *old(self),
            children_at(old(ctx).spec_refs().refs@, old(self).slot as int) is Some && old(self).index
                < usize::MAX ==> final(self).index == old(self).index + 1 && child_updated(
                old(ctx).spec_refs().refs@,
                final(ctx).spec_refs().refs@,
                old(self).slot as int,
                old(self).index as int,
                id,
            ),
            final(ctx).spec_accesser() == old(ctx).spec_accesser(),
                final(ctx).spec_refs().sealed == old(ctx).spec_refs().sealed,
            final(ctx).spec_tick().waker == old(ctx).spec_tick().waker,
    {
        if self.index == usize::MAX {
            return Err(RefError::TypeMismatch);
        }
        let r = update_child(ctx, self.slot, self.index, id, component_fn);
        if children_at_exec(ctx, self.slot) {
            self.index = self.index + 1;
        }
        r
    }

    /// Ends the tick's reconciliation: the children past the cursor are
    /// disposed, last first, running their cleanups. Returns whether the slot
    /// is a children slot.
    pub fn finish(self, ctx: &mut ComponentContext) -> (r: bool)
        ensures
            r == (children_at(old(ctx).spec_refs().refs@, self.slot as int) is Some),
            !r ==> *final(ctx) == *old(ctx),
            r ==> {
                let cs = children_at(old(ctx).spec_refs().refs@, self.slot as int)->0;
                let keep = if self.index <= cs.len() { self.index as int } else { cs.len() as int };
                &&& final(ctx).spec_refs().refs@ == old(ctx).spec_refs().refs@.update(
                    self.slot as int,
                    final(ctx).spec_refs().refs@[self.slot as int],
                )
                &&& children_at(final(ctx).spec_refs().refs@, self.slot as int) == Some(
                    cs.subrange(0, keep),
                )
                &&& final(ctx).spec_tick().ran@ == old(ctx).spec_tick().ran@ + components_cleanups(
                    cs.subrange(keep, cs.len() as int),
                )
                &&& final(ctx).spec_tick().waker == old(ctx).spec_tick().waker
                &&& final(ctx).spec_tick().wakes == old(ctx).spec_tick().wakes
            },
            final(ctx).spec_accesser() == old(ctx).spec_accesser(),
                final(ctx).spec_refs().sealed == old(ctx).spec_refs().sealed,
    {
        if !children_at_exec(ctx, self.slot) {
            return false;
        }
        let mut taken = Slot::Ref(0);
        std::mem::swap(&mut taken, &mut ctx.refs.refs[self.slot]);
        let mut cs = match taken {
            Slot::Children(cs) => cs,
            _ => Vec::new(),
        };
        let keep = if self.index <= cs.len() {
            self.index
        } else {
            cs.len()
        };
        let tail = cs.split_off(keep);
        crate::component::dispose_components(tail, &mut ctx.tick.ran);
        ctx.refs.refs.set(self.slot, Slot::Children(cs));
        true
    }
}

/// Whether the slot at `i` of `ctx` is a children slot.
fn children_at_exec(ctx: &ComponentContext, i: usize) -> (r: bool)
    ensures
        r == (children_at(ctx.spec_refs().refs@, i as int) is Some),
{
    if i < ctx.refs.refs.len() {
        match &ctx.refs.refs[i] {
            Slot::Children(_) => true,
            _ => false,
        }
    } else {
        false
    }
}

} // verus!
