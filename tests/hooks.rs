use fcs_compose::app::{use_system, App};
use fcs_compose::component::{Component, ComponentContext, ComponentFn, Tick};
use fcs_compose::container::{update_child, use_child, use_children, use_container};
use fcs_compose::hook::{use_cleanup, use_once, use_ref, CleanupCell, Effect};
use fcs_compose::ref_store::{RefError, RefStore, Slot, SlotKind, StateCell};
use fcs_compose::state::{use_effect, use_state, State, StateRef};

struct Counter {
    start: i64,
    seen: Vec<i64>,
}

impl ComponentFn<i64> for Counter {
    fn call(&mut self, ctx: &mut ComponentContext) -> i64 {
        let num = use_state(ctx, self.start);
        let v = num.get(ctx).unwrap() + 1;
        num.set(ctx, v);
        self.seen.push(v);
        v
    }
}

struct WithCleanup {
    token: u64,
}

impl ComponentFn<i64> for WithCleanup {
    fn call(&mut self, ctx: &mut ComponentContext) -> i64 {
        let r = use_ref(ctx, 0);
        let v = r.get(ctx).unwrap() + 1;
        r.set(ctx, v);
        use_cleanup(ctx, self.token);
        v
    }
}

struct Parent {
    children: usize,
    results: Vec<i64>,
}

impl ComponentFn<()> for Parent {
    fn call(&mut self, ctx: &mut ComponentContext) {
        let mut container = use_container(ctx);
        self.results.clear();
        let mut i: usize = 0;
        while i < self.children {
            let mut child = WithCleanup { token: 100 + i as u64 };
            let r = container.child(ctx, 7, &mut child).unwrap();
            self.results.push(r);
            i += 1;
        }
        container.finish(ctx);
    }
}

#[test]
fn store_starts_unsealed_and_empty() {
    let store = RefStore::new();
    assert!(!store.sealed());
    assert_eq!(store.len(), 0);
    assert!(store.is_empty());
}

#[test]
fn first_accesser_seals_the_store() {
    let mut store = RefStore::new();
    let mut acc = store.accesser();
    assert!(store.sealed());
    assert_eq!(acc.next_ref(&mut store, Slot::Ref(5)), 0);
    assert_eq!(acc.next_index(), 1);
    assert_eq!(acc.finish(&store), Ok(()));
    assert_eq!(store.len(), 1);
}

#[test]
fn state_persists_and_ref_keeps_position() {
    let mut c = Component::new();
    let mut tick = Tick::new(1);
    let mut ctx = c.begin(tick, 3);
    let r = use_ref(&mut ctx, 42);
    let s = use_state(&mut ctx, 9);
    let t = c.end(ctx);
    tick = t;
    for _ in 0..3 {
        let mut ctx = c.begin(tick, 3);
        let r2 = use_ref(&mut ctx, 0);
        let s2 = use_state(&mut ctx, 0);
        assert_eq!(r2, r);
        assert_eq!(s2, s);
        assert_eq!(r2.get(&ctx), Some(42));
        assert_eq!(s2.get(&ctx), Some(9));
        let t = c.end(ctx);
        tick = t;
    }
    assert!(tick.wakes.is_empty());
}

#[test]
fn extra_hook_after_sealing_is_count_mismatch() {
    let mut c = Component::new();
    let mut ctx = c.begin(Tick::new(1), 1);
    use_ref(&mut ctx, 1);
    let tick = c.end(ctx);
    let mut ctx = c.begin(tick, 1);
    assert_eq!(ctx.check(SlotKind::Ref), Ok(()));
    use_ref(&mut ctx, 1);
    assert_eq!(ctx.check(SlotKind::Ref), Err(RefError::CountMismatch));
    assert_eq!(ctx.check(SlotKind::State), Err(RefError::CountMismatch));
    assert!(ctx.visited_all());
}

#[test]
fn missing_hook_after_sealing_is_under_visited() {
    let mut c = Component::new();
    let mut ctx = c.begin(Tick::new(1), 1);
    use_ref(&mut ctx, 1);
    use_ref(&mut ctx, 2);
    assert!(ctx.visited_all());
    let tick = c.end(ctx);
    let mut ctx = c.begin(tick, 1);
    use_ref(&mut ctx, 1);
    assert!(!ctx.visited_all());
    let mut short = ShortPass { first: true };
    let mut tick = Tick::new(1);
    let mut c = Component::new();
    assert_eq!(c.update(&mut tick, 1, &mut short), Ok(()));
    assert_eq!(c.update(&mut tick, 1, &mut short), Err(RefError::UnderVisited));
}

#[test]
fn other_kind_at_a_slot_is_type_mismatch() {
    let mut c = Component::new();
    let mut ctx = c.begin(Tick::new(1), 1);
    use_ref(&mut ctx, 1);
    let tick = c.end(ctx);
    let mut ctx = c.begin(tick, 1);
    assert_eq!(ctx.check(SlotKind::State), Err(RefError::TypeMismatch));
    assert_eq!(ctx.check(SlotKind::Cleanup), Err(RefError::TypeMismatch));
    assert_eq!(ctx.check(SlotKind::Ref), Ok(()));
    assert!(matches!(ctx.slots()[0], Slot::Ref(1)));
}

#[test]
fn second_write_delivers_no_second_wake() {
    let mut c = Component::new();
    let mut ctx = c.begin(Tick::new(8), 1);
    let s = use_state(&mut ctx, 0);
    assert!(!s.changed(&ctx));
    assert!(s.set(&mut ctx, 1));
    assert!(s.changed(&ctx));
    assert!(s.set(&mut ctx, 2));
    assert_eq!(ctx.tick().wakes, vec![8]);
    assert_eq!(s.get(&ctx), Some(2));
    let tick = c.end(ctx);
    assert_eq!(tick.wakes, vec![8]);
}

struct ShortPass {
    first: bool,
}

impl ComponentFn<()> for ShortPass {
    fn call(&mut self, ctx: &mut ComponentContext) {
        if self.first {
            use_ref(ctx, 1);
            self.first = false;
        }
    }
}

struct Recorder {
    runs: u64,
}

impl Effect for Recorder {
    fn run(&mut self) -> u64 {
        self.runs += 1;
        self.runs
    }
}

#[test]
fn effect_reruns_only_when_a_dependency_changed() {
    let mut c = Component::new();
    let mut eff = Recorder { runs: 0 };
    let mut tick = Tick::new(1);
    // Tick 1: the effect runs on creation.
    let mut ctx = c.begin(tick, 1);
    let s = use_state(&mut ctx, 0);
    assert_eq!(use_effect(&mut ctx, &mut eff, &vec![s]), Some(1));
    let t = c.end(ctx);
    tick = t;
    assert_eq!(eff.runs, 1);
    // Tick 2: nothing written, no rerun, no cleanup.
    let mut ctx = c.begin(tick, 1);
    let s = use_state(&mut ctx, 0);
    assert_eq!(use_effect(&mut ctx, &mut eff, &vec![s]), None);
    let t = c.end(ctx);
    tick = t;
    assert_eq!(eff.runs, 1);
    assert!(tick.ran.is_empty());
    // Tick 3: the dependency is written, the old cleanup runs once, then the effect.
    let mut ctx = c.begin(tick, 1);
    let s = use_state(&mut ctx, 0);
    s.set(&mut ctx, 5);
    assert_eq!(use_effect(&mut ctx, &mut eff, &vec![s]), Some(2));
    let t = c.end(ctx);
    tick = t;
    assert_eq!(eff.runs, 2);
    assert_eq!(tick.ran, vec![1]);
}

#[test]
fn use_once_runs_on_first_tick_only() {
    let mut c = Component::new();
    let mut eff = Recorder { runs: 0 };
    let mut ctx = c.begin(Tick::new(1), 1);
    assert_eq!(use_once(&mut ctx, &mut eff), Some(1));
    let tick = c.end(ctx);
    let mut ctx = c.begin(tick, 1);
    assert_eq!(use_once(&mut ctx, &mut eff), None);
    let _ = c.end(ctx);
    assert_eq!(eff.runs, 1);
}

#[test]
fn container_shrink_disposes_trailing_children() {
    let mut c = Component::new();
    let mut parent = Parent { children: 3, results: Vec::new() };
    let mut tick = Tick::new(1);
    assert_eq!(c.update(&mut tick, 1, &mut parent), Ok(()));
    assert_eq!(parent.results, vec![1, 1, 1]);
    assert!(tick.ran.is_empty());
    parent.children = 1;
    assert_eq!(c.update(&mut tick, 1, &mut parent), Ok(()));
    // The remaining child kept its state from the first tick.
    assert_eq!(parent.results, vec![2]);
    // Exactly the two trailing children were disposed, last first.
    assert_eq!(tick.ran, vec![102, 101]);
}

#[test]
fn swapping_the_logic_starts_afresh() {
    let mut c = Component::new();
    let mut tick = Tick::new(1);
    let mut first = WithCleanup { token: 9 };
    assert_eq!(c.update(&mut tick, 1, &mut first), Ok(1));
    assert_eq!(c.update(&mut tick, 1, &mut first), Ok(2));
    assert!(tick.ran.is_empty());
    let mut other = WithCleanup { token: 10 };
    assert_eq!(c.update(&mut tick, 2, &mut other), Ok(1));
    assert_eq!(tick.ran, vec![9]);
    assert_eq!(c.last_id, 2);
}

struct Root {
    counter: Counter,
    siblings: usize,
    tick_no: usize,
}

impl ComponentFn<i64> for Root {
    fn call(&mut self, ctx: &mut ComponentContext) -> i64 {
        let mut container = use_container(ctx);
        let v = container.child(ctx, 1, &mut self.counter).unwrap();
        let n = if self.tick_no % 2 == 0 { self.siblings } else { 0 };
        let mut i: usize = 0;
        while i < n {
            let mut sib = WithCleanup { token: 50 + i as u64 };
            container.child(ctx, 2, &mut sib).unwrap();
            i += 1;
        }
        container.finish(ctx);
        self.tick_no += 1;
        v
    }
}

#[test]
fn counter_counts_through_sibling_churn() {
    let mut app = App::new();
    let mut root = Root { counter: Counter { start: 0, seen: Vec::new() }, siblings: 2, tick_no: 0 };
    let mut out = Vec::new();
    for _ in 0..5 {
        let o = app.run(1, &mut root);
        assert!(o.woken);
        out.push(o.result.unwrap());
    }
    assert_eq!(out, vec![1, 2, 3, 4, 5]);
    assert_eq!(root.counter.seen, vec![1, 2, 3, 4, 5]);
    assert_eq!(app.ticks, 5);
}

#[test]
fn cleanup_cell_set_runs_previous_cleanup() {
    let mut cell = CleanupCell::new(3u64);
    let mut ran = Vec::new();
    cell.set(4, &mut ran);
    assert_eq!(cell.0, 4);
    assert_eq!(ran, vec![3]);
}

#[test]
fn children_slot_holds_empty_sequence() {
    let mut c = Component::new();
    let mut ctx = c.begin(Tick::new(1), 1);
    let h = use_children(&mut ctx);
    assert!(matches!(&ctx.slots()[h.index], Slot::Children(v) if v.is_empty()));
    let _ = c.end(ctx);
}

#[test]
fn first_system_request_wins() {
    let mut c = Component::new();
    let mut ctx = c.begin(Tick::new(1), 1);
    let a = use_system(&mut ctx, 5, 10);
    let b = use_system(&mut ctx, 5, 20);
    assert_eq!(a.value, 10);
    assert_eq!(b.value, 10);
    assert_eq!(ctx.tick().systems.len(), 1);
}

#[test]
fn state_handle_on_other_slot_reports_unchanged() {
    let mut c = Component::new();
    let mut ctx = c.begin(Tick::new(1), 1);
    let r = use_ref(&mut ctx, 1);
    let s = StateRef { index: r.index };
    assert!(!s.changed(&ctx));
    assert_eq!(s.get(&ctx), None);
    assert!(!s.set(&mut ctx, 3));
    assert!(matches!(ctx.slots()[0], Slot::Ref(1)));
    let _ = StateCell { value: 0, waker: None };
}

#[test]
fn ref_set_writes_only_ref_slots() {
    let mut c = Component::new();
    let mut ctx = c.begin(Tick::new(1), 1);
    let r = use_ref(&mut ctx, 1);
    let s = use_state(&mut ctx, 2);
    assert!(r.set(&mut ctx, 11));
    assert_eq!(r.get(&ctx), Some(11));
    let wrong = fcs_compose::hook::Ref { index: s.index };
    assert!(!wrong.set(&mut ctx, 5));
    assert_eq!(wrong.get(&ctx), None);
    assert_eq!(s.get(&ctx), Some(2));
}

#[test]
fn accesser_reports_store_length() {
    let mut store = RefStore::new();
    let mut acc = store.accesser();
    assert!(acc.is_empty(&store));
    acc.next_ref(&mut store, Slot::Ref(1));
    acc.next_ref(&mut store, Slot::Ref(2));
    assert_eq!(acc.len(&store), 2);
    assert!(!acc.is_empty(&store));
}

#[test]
fn child_on_a_non_children_slot_is_type_mismatch() {
    let mut c = Component::new();
    let mut ctx = c.begin(Tick::new(1), 1);
    let r = use_ref(&mut ctx, 1);
    let mut container = fcs_compose::container::Container { index: 0, slot: r.index };
    let mut child = WithCleanup { token: 1 };
    assert_eq!(container.child(&mut ctx, 1, &mut child), Err(RefError::TypeMismatch));
    assert_eq!(container.index, 0);
    assert!(!container.finish(&mut ctx));
}

#[test]
fn accesser_checks_before_requests() {
    let mut store = RefStore::new();
    let mut acc = store.accesser();
    assert_eq!(acc.check(&store, SlotKind::Ref), Ok(()));
    acc.next_ref(&mut store, Slot::Ref(1));
    assert_eq!(acc.finish(&store), Ok(()));
    let acc = store.accesser();
    assert_eq!(acc.check(&store, SlotKind::Children), Err(RefError::TypeMismatch));
    assert_eq!(acc.finish(&store), Err(RefError::UnderVisited));
}

#[test]
fn disposing_a_component_runs_nested_cleanups() {
    let mut c = Component::new();
    let mut parent = Parent { children: 2, results: Vec::new() };
    let mut tick = Tick::new(1);
    assert_eq!(c.update(&mut tick, 1, &mut parent), Ok(()));
    let mut other = WithCleanup { token: 7 };
    assert_eq!(c.update(&mut tick, 2, &mut other), Ok(1));
    assert_eq!(tick.ran, vec![101, 100]);
}

#[test]
fn effect_cleanups_each_run_once_through_teardown() {
    let mut c = Component::new();
    let mut eff = Recorder { runs: 0 };
    let mut tick = Tick::new(1);
    for _ in 0..3 {
        let mut ctx = c.begin(tick, 1);
        let s = use_state(&mut ctx, 0);
        s.set(&mut ctx, 1);
        use_effect(&mut ctx, &mut eff, &vec![s]);
        let t = c.end(ctx);
        tick = t;
    }
    assert_eq!(tick.ran, vec![1, 2]);
    let mut other = WithCleanup { token: 9 };
    c.update(&mut tick, 2, &mut other).unwrap();
    assert_eq!(tick.ran, vec![1, 2, 3]);
}

#[test]
fn fixed_child_keeps_its_state() {
    let mut c = Component::new();
    let mut tick = Tick::new(1);
    let mut got = Vec::new();
    for _ in 0..3 {
        let mut ctx = c.begin(tick, 1);
        let h = use_child(&mut ctx, 5);
        assert_eq!(h.index, 0);
        let mut child = WithCleanup { token: 4 };
        got.push(update_child(&mut ctx, h.index, 0, 5, &mut child).unwrap());
        let t = c.end(ctx);
        tick = t;
    }
    assert_eq!(got, vec![1, 2, 3]);
}

struct Quiet;

impl ComponentFn<i64> for Quiet {
    fn call(&mut self, ctx: &mut ComponentContext) -> i64 {
        let s = use_state(ctx, 3);
        use_cleanup(ctx, 77);
        s.get(ctx).unwrap()
    }
}

#[test]
fn tick_without_writes_reports_no_wake() {
    let mut app = App::new();
    let o = app.run(1, &mut Quiet);
    assert_eq!(o.result, Ok(3));
    assert!(!o.woken);
    assert_eq!(o.waker, 0);
    let o = app.run(1, &mut Quiet);
    assert_eq!(o.waker, 1);
    assert!(o.ran.is_empty());
    assert_eq!(app.dispose(), vec![77]);
}

struct Wrap<'a>(&'a mut Parent);

impl ComponentFn<()> for Wrap<'_> {
    fn call(&mut self, ctx: &mut ComponentContext) {
        use_cleanup(ctx, 1);
        self.0.call(ctx);
    }
}

#[test]
fn dropping_a_run_early_runs_every_cleanup() {
    let mut app = App::new();
    let mut parent = Parent { children: 2, results: Vec::new() };
    app.run(1, &mut Wrap(&mut parent)).result.unwrap();
    assert_eq!(app.dispose(), vec![101, 100, 1]);
}

#[test]
fn tick_steps_carry_systems_and_count() {
    let mut app = App::new();
    let t = app.start_tick();
    assert_eq!(t.waker, 0);
    let o = app.close_tick(Ok::<i64, RefError>(4), t);
    assert_eq!(o.result, Ok(4));
    assert_eq!(app.ticks, 1);
    let mut t = fcs_compose::component::Tick::new(9);
    t.wakes.push(9);
    t.ran.push(2);
    let o = fcs_compose::app::tick_outcome(Err::<(), RefError>(RefError::UnderVisited), t);
    assert!(o.woken);
    assert_eq!(o.ran, vec![2]);
    assert_eq!(o.result, Err(RefError::UnderVisited));
}
