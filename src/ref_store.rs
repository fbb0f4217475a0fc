//! Ordered, kind-tagged slot storage for one component and the cursor that
//! walks it during a tick.
use vstd::prelude::*;

use crate::component::Component;
use crate::hook::CleanupCell;

verus! {

broadcast use vstd::std_specs::vec::group_vec_axioms, vstd::seq::group_seq_axioms;

/// Breaches of the hook call discipline.
#[derive(Debug, Clone, Copy, PartialEq, Eq, Structural)]
pub enum RefError {
    /// A sealed store was asked for more slots than it holds.
    CountMismatch,
    /// A slot was requested with a kind other than the one it was created with.
    TypeMismatch,
    /// A tick of a sealed store visited fewer slots than the store holds.
    UnderVisited,
}

/// The runtime tag of a slot.
#[derive(Debug, Clone, Copy, PartialEq, Eq, Structural)]
pub enum SlotKind {
    Ref,
    State,
    Cleanup,
    Children,
}

/// The payload of a `use_state` slot: a value and the wake token armed for it.
#[derive(Debug)]
pub struct StateCell {
    pub value: i64,
    pub waker: Option<u64>,
}

/// One persistent, kind-tagged storage unit.
#[derive(Debug)]
pub enum Slot {
    Ref(i64),
    State(StateCell),
    Cleanup(CleanupCell<u64>),
    Children(Vec<Component>),
}

pub open spec fn kind_of(s: Slot) -> SlotKind {
    match s {
        Slot::Ref(_) => SlotKind::Ref,
        Slot::State(_) => SlotKind::State,
        Slot::Cleanup(_) => SlotKind::Cleanup,
        Slot::Children(_) => SlotKind::Children,
    }
}

impl Slot {
    pub fn kind(&self) -> (r: SlotKind)
        ensures
            r == kind_of(*self),
    {
        match self {
            Slot::Ref(_) => SlotKind::Ref,
            Slot::State(_) => SlotKind::State,
            Slot::Cleanup(_) => SlotKind::Cleanup,
            Slot::Children(_) => SlotKind::Children,
        }
    }
}

/// The ordered slots of one component and whether their layout is fixed.
#[derive(Debug)]
pub struct RefStore {
    pub sealed: bool,
    pub refs: Vec<Slot>,
}

impl RefStore {
    pub fn new() -> (r: RefStore)
        ensures
            !r.sealed,
            r.refs@.len() == 0,
    {
        RefStore { sealed: false, refs: Vec::new() }
    }

    pub fn sealed(&self) -> (r: bool)
        ensures
            r == self.sealed,
    {
        self.sealed
    }

    pub fn len(&self) -> (r: usize)
        ensures
            r == self.refs@.len(),
    {
        self.refs.len()
    }

    pub fn is_empty(&self) -> (r: bool)
        ensures
            r == (self.refs@.len() == 0),
    {
        self.refs.len() == 0
    }

    /// Starts a pass over the slots; the first pass seals the store.
    pub fn accesser(&mut self) -> (r: RefAccesser)
        ensures
            final(self).sealed,
            final(self).refs@ == old(self).refs@,
            r.sealed == old(self).sealed,
            r.index == 0,
    {
        let sealed = self.sealed;
        if !self.sealed {
            self.sealed = true;
        }
        RefAccesser { sealed, index: 0 }
    }
}

impl Default for RefStore {
    fn default() -> (r: RefStore)
        ensures
            !r.sealed,
            r.refs@.len() == 0,
    {
        RefStore::new()
    }
}

/// The cursor of one pass over a store.
#[derive(Debug, Clone, Copy, PartialEq, Eq, Structural)]
pub struct RefAccesser {
    /// Whether the store was sealed before this pass began.
    pub sealed: bool,
    pub index: usize,
}

/// What a request for the slot at `index` of kind `kind` comes to.
pub open spec fn next_ref_outcome(sealed: bool, index: int, refs: Seq<Slot>, kind: SlotKind) -> Result<
    (),
    RefError,
> {
    if index < refs.len() {
        if kind_of(refs[index]) == kind {
            Ok(())
        } else {
            Err(RefError::TypeMismatch)
        }
    } else if index == refs.len() && !sealed {
        Ok(())
    } else {
        Err(RefError::CountMismatch)
    }
}

/// The slots after a successful request: the initial value is appended only
/// where the cursor stands past the end.
pub open spec fn refs_after(index: int, refs: Seq<Slot>, init: Slot) -> Seq<Slot> {
    if index < refs.len() {
        refs
    } else {
        refs.push(init)
    }
}

/// Whether a pass that ends at `index` over `len` slots visited too few.
pub open spec fn under_visited(sealed: bool, index: int, len: int) -> bool {
    sealed && index != len
}

impl RefAccesser {
    pub fn next_index(&self) -> (r: usize)
        ensures
            r == self.index,
    {
        self.index
    }

    pub fn len(&self, store: &RefStore) -> (r: usize)
        ensures
            r == store.refs@.len(),
    {
        store.len()
    }

    pub fn is_empty(&self, store: &RefStore) -> (r: bool)
        ensures
            r == (store.refs@.len() == 0),
    {
        store.is_empty()
    }

    /// Whether a request of a slot of kind `kind` may be made now; a caller
    /// tests this before `next_ref`.
    pub fn check(&self, store: &RefStore, kind: SlotKind) -> (r: Result<(), RefError>)
        ensures
            r == next_ref_outcome(self.sealed, self.index as int, store.refs@, kind),
    {
        let index = self.index;
        if index < store.refs.len() {
            if store.refs[index].kind() != kind {
                Err(RefError::TypeMismatch)
            } else {
                Ok(())
            }
        } else if index == store.refs.len() && !self.sealed {
            Ok(())
        } else {
            Err(RefError::CountMismatch)
        }
    }

    /// Gets the slot at the cursor, creating it from `init` while the store is
    /// unsealed, and advances the cursor. Returns the slot's position. A
    /// request past the end of a sealed store, or of another kind than the
    /// slot's, breaks the hook discipline and is not admitted.
    pub fn next_ref(&mut self, store: &mut RefStore, init: Slot) -> (r: usize)
        requires
            next_ref_outcome(
                old(self).sealed,
                old(self).index as int,
                old(store).refs@,
                kind_of(init),
            ) is Ok,
        ensures
            r == old(self).index,
            final(self).index == r + 1,
            final(store).refs@ == refs_after(r as int, old(store).refs@, init),
            kind_of(final(store).refs@[r as int]) == kind_of(init),
            final(self).sealed == old(self).sealed,
            final(store).sealed == old(store).sealed,
    {
        let index = self.index;
        if index >= store.refs.len() {
            store.refs.push(init);
        }
        let len = store.refs.len();
        assert(index < len);
        self.index = index + 1;
        index
    }

    /// Whether a pass that ends now visited too few slots of a sealed store;
    /// a caller tests this before closing the pass.
    pub fn finish(&self, store: &RefStore) -> (r: Result<(), RefError>)
        ensures
            r == (if under_visited(self.sealed, self.index as int, store.refs@.len() as int) {
                Err::<(), RefError>(RefError::UnderVisited)
            } else {
                Ok(())
            }),
    {
        if self.sealed && store.refs.len() != self.index {
            Err(RefError::UnderVisited)
        } else {
            Ok(())
        }
    }
}

} // verus!
