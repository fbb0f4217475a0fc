//! Components: one key-identified logic bound to one slot store.
use vstd::prelude::*;

use crate::hook::Cleanup;
use crate::ref_store::{under_visited, RefAccesser, RefError, RefStore, Slot};

verus! {

broadcast use vstd::std_specs::vec::group_vec_axioms, vstd::seq::group_seq_axioms;

/// What one tick carries through every component: the waker of this tick,
/// the wakes delivered so far, the cleanup tokens run so far, in order, and
/// the shared systems of the run.
#[derive(Debug)]
pub struct Tick {
    pub waker: u64,
    pub wakes: Vec<u64>,
    pub ran: Vec<u64>,
    pub systems: Vec<crate::app::System>,
}

impl Tick {
    pub fn new(waker: u64) -> (r: Tick)
        ensures
            r.waker == waker,
            r.wakes@.len() == 0,
            r.ran@.len() == 0,
            r.systems@.len() == 0,
    {
        Tick { waker, wakes: Vec::new(), ran: Vec::new(), systems: Vec::new() }
    }
}

/// The logic of a component, run once per tick against its context.
pub trait ComponentFn<R> {
    fn call(&mut self, ctx: &mut ComponentContext) -> R;
}

/// What a component's logic sees during one tick: its slots, the cursor over
/// them, and the tick.
#[derive(Debug)]
pub struct ComponentContext {
    pub(crate) accesser: RefAccesser,
    pub(crate) refs: RefStore,
    pub(crate) tick: Tick,
}

/// What a request of a slot of kind `kind` comes to in a context.
pub open(crate) spec fn ctx_outcome(ctx: ComponentContext, kind: crate::ref_store::SlotKind) -> Result<
    (),
    RefError,
> {
    crate::ref_store::next_ref_outcome(
        ctx.accesser.sealed,
        ctx.spec_accesser().index as int,
        ctx.spec_refs().refs@,
        kind,
    )
}

/// The contract of a request for a slot made through a context: `post` is the
/// context after the request and `i` the position handed out.
pub open(crate) spec fn slot_taken(pre: ComponentContext, post: ComponentContext, init: Slot, i: usize) -> bool {
    &&& i == pre.accesser.index
    &&& post.accesser.index == i + 1
    &&& post.refs.refs@ == crate::ref_store::refs_after(i as int, pre.refs.refs@, init)
    &&& post.tick == pre.tick
    &&& post.accesser.sealed == pre.accesser.sealed
    &&& post.refs.sealed == pre.refs.sealed
}

impl ComponentContext {
    /// The slots the context holds.
    pub open(crate) spec fn spec_refs(&self) -> RefStore {
        self.refs
    }

    /// The cursor of the context's pass.
    pub open(crate) spec fn spec_accesser(&self) -> RefAccesser {
        self.accesser
    }

    /// The tick the context carries.
    pub open(crate) spec fn spec_tick(&self) -> Tick {
        self.tick
    }

    /// The slots, for reading.
    pub fn slots(&self) -> (r: &Vec<Slot>)
        ensures
            *r == self.spec_refs().refs,
    {
        &self.refs.refs
    }

    /// The cursor's position.
    pub fn next_index(&self) -> (r: usize)
        ensures
            r == self.spec_accesser().index,
    {
        self.accesser.index
    }

    /// The tick, for reading.
    pub fn tick(&self) -> (r: &Tick)
        ensures
            *r == self.spec_tick(),
    {
        &self.tick
    }

    pub fn executor_context(&mut self) -> (r: &mut Tick)
        ensures
            *r == old(self).spec_tick(),
            final(self).spec_tick() == *final(r),
            final(self).spec_refs() == old(self).spec_refs(),
            final(self).spec_accesser() == old(self).spec_accesser(),
    {
        &mut self.tick
    }

    /// Whether a hook of kind `kind` may be called now; a caller tests this
    /// before a hook.
    pub fn check(&self, kind: crate::ref_store::SlotKind) -> (r: Result<(), RefError>)
        ensures
            r == ctx_outcome(*self, kind),
    {
        self.accesser.check(&self.refs, kind)
    }

    /// Gets the slot at the cursor (see `RefAccesser::next_ref`).
    pub fn next_ref(&mut self, init: Slot) -> (r: usize)
        requires
            ctx_outcome(*old(self), crate::ref_store::kind_of(init)) is Ok,
        ensures
            slot_taken(*old(self), *final(self), init, r),
    {
        self.accesser.next_ref(&mut self.refs, init)
    }

    /// Whether the pass has visited every slot it owes; a caller tests this
    /// before `Component::end`.
    pub fn visited_all(&self) -> (r: bool)
        ensures
            r == !under_visited(
                self.spec_accesser().sealed,
                self.spec_accesser().index as int,
                self.spec_refs().refs@.len() as int,
            ),
    {
        self.accesser.finish(&self.refs).is_ok()
    }
}

/// One key-identified logic bound to its slot store. Key 0 stands for no
/// logic bound yet.
#[derive(Debug)]
pub struct Component {
    pub last_id: u64,
    pub refs: RefStore,
}

impl Component {
    pub fn new() -> (r: Component)
        ensures
            r.last_id == 0,
            !r.refs.sealed,
            r.refs.refs@.len() == 0,
    {
        Component { last_id: 0, refs: RefStore::new() }
    }

    /// Opens a tick for the logic keyed `id`. A key other than the bound one
    /// disposes the whole store, running its cleanups, and starts afresh.
    pub fn begin(&mut self, tick: Tick, id: u64) -> (ctx: ComponentContext)
        ensures
            final(self).last_id == id,
            final(self).refs.refs@.len() == 0,
            ctx.spec_accesser().index == 0,
            ctx.spec_refs().sealed,
            ctx.spec_tick().waker == tick.waker,
            ctx.spec_tick().wakes == tick.wakes,
            ctx.spec_tick().systems == tick.systems,
            old(self).last_id == id ==> {
                &&& ctx.spec_refs().refs@ == old(self).refs.refs@
                &&& ctx.spec_accesser().sealed == old(self).refs.sealed
                &&& ctx.spec_tick().ran == tick.ran
            },
            old(self).last_id != id ==> {
                &&& ctx.spec_refs().refs@.len() == 0
                &&& !ctx.spec_accesser().sealed
                &&& ctx.spec_tick().ran@ == tick.ran@ + slots_cleanups(old(self).refs.refs@)
            },
    {
        let mut tick = tick;
        let mut store = RefStore::new();
        std::mem::swap(&mut store, &mut self.refs);
        if self.last_id != id {
            let mut stale = RefStore::new();
            std::mem::swap(&mut stale, &mut store);
            dispose_slots(stale.refs, &mut tick.ran);
            self.last_id = id;
        }
        let accesser = store.accesser();
        ComponentContext { accesser, refs: store, tick }
    }

    /// Closes a tick that visited every slot it owed: the store comes back
    /// and the tick is handed on.
    pub fn end(&mut self, ctx: ComponentContext) -> (r: Tick)
        requires
            !under_visited(
                ctx.spec_accesser().sealed,
                ctx.spec_accesser().index as int,
                ctx.spec_refs().refs@.len() as int,
            ),
        ensures
            final(self).last_id == old(self).last_id,
            final(self).refs == ctx.spec_refs(),
            r == ctx.spec_tick(),
    {
        let ComponentContext { accesser: _, refs, tick } = ctx;
        self.refs = refs;
        tick
    }

    /// Runs one tick of `component_fn`, keyed `id`, against this component.
    /// The logic is the caller's own, so whether it visited every slot it
    /// owed is known only once it returns: a pass that stopped short comes
    /// back as `UnderVisited`, with the store kept as the logic left it.
    pub fn update<R, F: ComponentFn<R>>(&mut self, tick: &mut Tick, id: u64, component_fn: &mut F) -> (r:
        Result<R, RefError>)
        ensures
            final(self).last_id == id,
            final(tick).waker == old(tick).waker,
            r matches Err(e) ==> e == RefError::UnderVisited,
    {
        let waker = tick.waker;
        let mut t = Tick::new(waker);
        std::mem::swap(&mut t, tick);
        let mut ctx = self.begin(t, id);
        let out = component_fn.call(&mut ctx);
        let complete = ctx.visited_all();
        if complete {
            let mut t = self.end(ctx);
            t.waker = waker;
            *tick = t;
            Ok(out)
        } else {
            let ComponentContext { accesser: _, refs, tick: mut t } = ctx;
            self.refs = refs;
            t.waker = waker;
            *tick = t;
            Err(RefError::UnderVisited)
        }
    }
}

impl Default for Component {
    fn default() -> (r: Component)
        ensures
            r.last_id == 0,
            !r.refs.sealed,
            r.refs.refs@.len() == 0,
    {
        Component::new()
    }
}

/// The cleanup tokens that disposing `s` runs.
pub open spec fn slot_cleanups(s: Slot) -> Seq<u64>
    decreases s,
{
    match s {
        Slot::Cleanup(c) => seq![c.0.token()],
        Slot::Children(cs) => components_cleanups(cs@),
        _ => Seq::empty(),
    }
}

/// The cleanup tokens that disposing the slots `ss` runs, last slot first.
pub open spec fn slots_cleanups(ss: Seq<Slot>) -> Seq<u64>
    decreases ss,
{
    if ss.len() == 0 {
        Seq::empty()
    } else {
        slot_cleanups(ss[ss.len() - 1]) + slots_cleanups(ss.subrange(0, ss.len() - 1))
    }
}

/// The cleanup tokens that disposing the components `cs` runs, last first.
pub open spec fn components_cleanups(cs: Seq<Component>) -> Seq<u64>
    decreases cs,
{
    if cs.len() == 0 {
        Seq::empty()
    } else {
        slots_cleanups(cs[cs.len() - 1].refs.refs@) + components_cleanups(
            cs.subrange(0, cs.len() - 1),
        )
    }
}

/// Disposes slots, running each cleanup they hold exactly once.
pub fn dispose_slots(refs: Vec<Slot>, ran: &mut Vec<u64>)
    ensures
        final(ran)@ == old(ran)@ + slots_cleanups(refs@),
    decreases refs@,
{
    let ghost orig = refs@;
    let mut rest = refs;
    while rest.len() > 0
        invariant
            orig == refs@,
            rest@.len() <= orig.len(),
            rest@ == orig.subrange(0, rest@.len() as int),
            ran@ + slots_cleanups(rest@) == old(ran)@ + slots_cleanups(orig),
        decreases rest.len(),
    {
        let ghost before = rest@;
        let s = rest.pop().unwrap();
        let ghost sg = s;
        assert(rest@ == before.subrange(0, before.len() - 1));
        let ghost r0 = ran@;
        match s {
            Slot::Cleanup(c) => {
                let mut c = c;
                c.0.cleanup(ran);
            },
            Slot::Children(cs) => {
                proof {
                    assert(s == orig[before.len() - 1]);
                    assert(decreases_to!(orig => orig[before.len() - 1]));
                    assert(decreases_to!(sg => cs));
                    assert(decreases_to!(orig => cs@));
                }
                dispose_components(cs, ran);
            },
            _ => {},
        }
        assert(ran@ == r0 + slot_cleanups(s));
        assert(slots_cleanups(before) == slot_cleanups(s) + slots_cleanups(rest@));
        assert(r0 + slots_cleanups(before) =~= ran@ + slots_cleanups(rest@));
    }
    assert(slots_cleanups(rest@) =~= Seq::empty());
    assert(ran@ =~= ran@ + slots_cleanups(rest@));
}

/// Disposes components, running each cleanup that their slots hold exactly once.
pub fn dispose_components(cs: Vec<Component>, ran: &mut Vec<u64>)
    ensures
        final(ran)@ == old(ran)@ + components_cleanups(cs@),
    decreases cs@,
{
    let ghost orig = cs@;
    let mut rest = cs;
    while rest.len() > 0
        invariant
            orig == cs@,
            rest@.len() <= orig.len(),
            rest@ == orig.subrange(0, rest@.len() as int),
            ran@ + components_cleanups(rest@) == old(ran)@ + components_cleanups(orig),
        decreases rest.len(),
    {
        let ghost before = rest@;
        let c = rest.pop().unwrap();
        assert(rest@ == before.subrange(0, before.len() - 1));
        let ghost r0 = ran@;
        proof {
            assert(c == orig[before.len() - 1]);
            assert(decreases_to!(orig => orig[before.len() - 1]));
            assert(decreases_to!(orig => c.refs.refs@));
        }
        dispose_slots(c.refs.refs, ran);
        assert(components_cleanups(before) == slots_cleanups(c.refs.refs@) + components_cleanups(
            rest@,
        ));
        assert(r0 + components_cleanups(before) =~= ran@ + components_cleanups(rest@));
    }
    assert(components_cleanups(rest@) =~= Seq::empty());
    assert(ran@ =~= ran@ + components_cleanups(rest@));
}

} // verus!
