//! The dialogue store: an in-memory mapping from conversation identity to
//! the current `State`, with last-writer-wins updates. A conversation that
//! was never written to reads as `Start`.

use std::collections::HashMap;

use vstd::prelude::*;

use crate::state::{State, StateView};

verus! {

broadcast use vstd::std_specs::hash::group_hash_axioms;

/// Keyed storage of one dialogue `State` per conversation identity.
///
/// `get` and `set` never fail: the backing map lives in memory for the
/// process lifetime. Its view is the mathematical map from identity to
/// the view of the stored state.
pub struct Store {
    slots: HashMap<i64, State>,
}

/// The state an identity reads as under a given mapping: the recorded
/// state, or `Start` for an identity the mapping does not contain.
pub open spec fn state_of(m: Map<i64, StateView>, id: i64) -> StateView {
    if m.contains_key(id) {
        m[id]
    } else {
        StateView::Start
    }
}

impl Store {
    /// The mapping this store currently holds.
    pub closed spec fn view(&self) -> Map<i64, StateView> {
        Map::new(
            |id: i64| self.slots@.contains_key(id),
            |id: i64| self.slots@[id]@,
        )
    }

    /// The state `id` currently reads as.
    pub open spec fn state_at(&self, id: i64) -> StateView {
        state_of(self@, id)
    }

    /// An empty store: every identity is unseen and reads as `Start`.
    pub fn new() -> (s: Store)
        ensures
            s@ == Map::<i64, StateView>::empty(),
    {
        Store { slots: HashMap::new() }
    }

    /// The current state for `id`, or `Start` if none was ever recorded.
    pub fn get(&self, id: i64) -> (st: State)
        ensures
            st@ == self.state_at(id),
    {
        match self.slots.get(&id) {
            Some(st) => st.clone(),
            None => State::Start,
        }
    }

    /// Record `st` for `id`, overwriting any earlier state: last write wins,
    /// no history is kept, and no other identity is affected.
    pub fn set(&mut self, id: i64, st: State)
        ensures
            final(self)@ == old(self)@.insert(id, st@),
    {
        self.slots.insert(id, st);
    }

    /// Forget `id`: it reads as `Start` again afterwards.
    pub fn clear(&mut self, id: i64)
        ensures
            final(self)@ == old(self)@.remove(id),
    {
        self.slots.remove(&id);
    }
}

} // verus!
