//! The scheduler: one root component driven tick by tick, and the shared
//! systems of a run.
use vstd::prelude::*;

use crate::component::{dispose_slots, slots_cleanups, Component, ComponentContext, ComponentFn, Tick};
use crate::ref_store::RefError;

verus! {

broadcast use vstd::std_specs::vec::group_vec_axioms;

/// A shared value of a run, created once per key; later requests get it.
#[derive(Debug, Clone, Copy, PartialEq, Eq, Structural)]
pub struct System {
    pub key: u64,
    pub value: i64,
}

/// Whether no two systems share a key.
pub open spec fn keys_unique(systems: Seq<System>) -> bool {
    forall|i: int, j: int|
        0 <= i < systems.len() && 0 <= j < systems.len() && #[trigger] systems[i].key
            == #[trigger] systems[j].key ==> i == j
}

/// Whether a system keyed `key` exists.
pub open spec fn has_system(systems: Seq<System>, key: u64) -> bool {
    exists|j: int| 0 <= j < systems.len() && #[trigger] systems[j].key == key
}

/// Gets the system keyed `key`, creating it holding `init` if there is none:
/// the first request wins.
pub fn use_system(ctx: &mut ComponentContext, key: u64, init: i64) -> (r: System)
    ensures
        keys_unique(old(ctx).spec_tick().systems@) ==> keys_unique(final(ctx).spec_tick().systems@),
        r.key == key,
        has_system(old(ctx).spec_tick().systems@, key) ==> {
            &&& final(ctx).spec_tick().systems@ == old(ctx).spec_tick().systems@
            &&& exists|j: int|
                0 <= j < old(ctx).spec_tick().systems@.len() && #[trigger] old(ctx).spec_tick().systems@[j] == r
        },
        !has_system(old(ctx).spec_tick().systems@, key) ==> {
            &&& r == (System { key, value: init })
            &&& final(ctx).spec_tick().systems@ == old(ctx).spec_tick().systems@.push(r)
        },
        final(ctx).spec_refs() == old(ctx).spec_refs(),
        final(ctx).spec_accesser() == old(ctx).spec_accesser(),
        final(ctx).spec_tick().waker == old(ctx).spec_tick().waker,
        final(ctx).spec_tick().wakes == old(ctx).spec_tick().wakes,
        final(ctx).spec_tick().ran == old(ctx).spec_tick().ran,
{
    let mut i: usize = 0;
    while i < ctx.tick.systems.len()
        invariant
            i <= ctx.tick.systems@.len(),
            *ctx == *old(ctx),
            forall|j: int| 0 <= j < i ==> #[trigger] ctx.tick.systems@[j].key != key,
        decreases ctx.tick.systems@.len() - i,
    {
        if ctx.tick.systems[i].key == key {
            return ctx.tick.systems[i];
        }
        i = i + 1;
    }
    let created = System { key, value: init };
    ctx.tick.systems.push(created);
    proof {
        let s = ctx.tick.systems@;
        if keys_unique(old(ctx).spec_tick().systems@) {
        assert forall|a: int, b: int|
            0 <= a < s.len() && 0 <= b < s.len() && #[trigger] s[a].key == #[trigger] s[b].key
            implies a == b by {
            if a < s.len() - 1 && b < s.len() - 1 {
                assert(old(ctx).spec_tick().systems@[a] == s[a]);
                assert(old(ctx).spec_tick().systems@[b] == s[b]);
            }
        }
        }
    }
    created
}

/// What one tick of a run comes to.
#[derive(Debug)]
pub struct TickOutcome<R> {
    /// The root logic's result, or the breach of the hook discipline.
    pub result: Result<R, RefError>,
    /// Whether a state write during the tick requested another tick.
    pub woken: bool,
    /// The cleanup tokens that ran during the tick, in order.
    pub ran: Vec<u64>,
    /// The waker the tick was run with.
    pub waker: u64,
}

/// A run: one root component, the count of ticks so far, and the shared
/// systems.
#[derive(Debug)]
pub struct App {
    pub root: Component,
    pub ticks: u64,
    pub systems: Vec<System>,
}

impl App {
    pub fn new() -> (r: App)
        ensures
            r.root.last_id == 0,
            r.root.refs.refs@.len() == 0,
            !r.root.refs.sealed,
            r.ticks == 0,
            r.systems@.len() == 0,
            keys_unique(r.systems@),
    {
        App { root: Component::new(), ticks: 0, systems: Vec::new() }
    }

    /// Opens the next tick: its waker is the number of ticks run before it,
    /// and it carries the run's systems.
    pub fn start_tick(&mut self) -> (t: Tick)
        ensures
            t.waker == old(self).ticks,
            t.wakes@.len() == 0,
            t.ran@.len() == 0,
            t.systems@ == old(self).systems@,
            keys_unique(old(self).systems@) ==> keys_unique(t.systems@),
            final(self).systems@.len() == 0,
            final(self).root == old(self).root,
            final(self).ticks == old(self).ticks,
    {
        let mut tick = Tick::new(self.ticks);
        std::mem::swap(&mut tick.systems, &mut self.systems);
        tick
    }

    /// Closes a tick: the systems come back to the run, the tick count goes
    /// up, and the outcome reports `result` and what the tick recorded.
    pub fn close_tick<R>(&mut self, result: Result<R, RefError>, tick: Tick) -> (r: TickOutcome<R>)
        ensures
            final(self).systems@ == tick.systems@,
            keys_unique(tick.systems@) ==> keys_unique(final(self).systems@),
            final(self).root == old(self).root,
            final(self).ticks == next_count(old(self).ticks),
            r.result == result,
            r.woken == (tick.wakes@.len() > 0),
            r.ran@ == tick.ran@,
            r.waker == tick.waker,
    {
        let mut tick = tick;
        std::mem::swap(&mut tick.systems, &mut self.systems);
        if self.ticks < u64::MAX {
            self.ticks = self.ticks + 1;
        }
        tick_outcome(result, tick)
    }

    /// Runs the next tick of the root logic, keyed `id`: the root gets the
    /// tick opened by `start_tick`, and the outcome is the one `close_tick`
    /// makes of what the root handed back. The root logic is the caller's
    /// own, so what it returns and which wakes it delivers are stated by
    /// those two steps, not here.
    pub fn run<R, F: ComponentFn<R>>(&mut self, id: u64, root_fn: &mut F) -> (r: TickOutcome<R>)
        ensures
            final(self).root.last_id == id,
            final(self).ticks == next_count(old(self).ticks),
            r.waker == old(self).ticks,
    {
        let mut tick = self.start_tick();
        let result = self.root.update(&mut tick, id, root_fn);
        self.close_tick(result, tick)
    }

    /// Tears the run down: every cleanup still held by the root and its
    /// descendants runs exactly once, last slot first. Returns their tokens.
    pub fn dispose(self) -> (r: Vec<u64>)
        ensures
            r@ == slots_cleanups(self.root.refs.refs@),
    {
        let mut ran: Vec<u64> = Vec::new();
        dispose_slots(self.root.refs.refs, &mut ran);
        assert(ran@ =~= slots_cleanups(self.root.refs.refs@));
        ran
    }
}

/// The tick count after one more tick; it stops at the largest `u64`.
pub open spec fn next_count(ticks: u64) -> u64 {
    if ticks < u64::MAX {
        (ticks + 1) as u64
    } else {
        ticks
    }
}

/// What a tick comes to: the root's result, whether a wake was delivered,
/// and the cleanups run, in order.
pub fn tick_outcome<R>(result: Result<R, RefError>, tick: Tick) -> (r: TickOutcome<R>)
    ensures
        r.result == result,
        r.woken == (tick.wakes@.len() > 0),
        r.ran@ == tick.ran@,
        r.waker == tick.waker,
{
    let woken = tick.wakes.len() > 0;
    TickOutcome { result, woken, ran: tick.ran, waker: tick.waker }
}

impl Default for App {
    fn default() -> (r: App)
        ensures
            r.root.last_id == 0,
            r.ticks == 0,
    {
        App::new()
    }
}

} // verus!
