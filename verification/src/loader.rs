//! Snapshot of the external asset loader's observable state.
use crate::handle::Handle;
use crate::state::LoadState;
use vstd::hash_map::HashMapWithView;
use vstd::prelude::*;

verus! {

broadcast use vstd::std_specs::hash::axiom_u64_obeys_hash_table_key_model;

/// The load state of `id` under the recorded states `states`. A handle the
/// loader has not reported on yet is still `Loading`: registration is
/// assumed to happen before or shortly after its load begins, and `Loading`
/// is the sole initial state.
pub open spec fn state_of(states: Map<u64, LoadState>, id: u64) -> LoadState {
    if states.contains_key(id) {
        states[id]
    } else {
        LoadState::Loading
    }
}

/// What the external loader reports at one scheduler tick: for each handle
/// it has reported on, its current load state. The host queries its real
/// loader and records the answers here before invoking the resolver; loads
/// complete asynchronously, so the states may change from tick to tick.
pub struct Loader {
    states: HashMapWithView<u64, LoadState>,
}

impl Loader {
    /// The recorded states, keyed by handle identifier. Handles absent from
    /// this map are treated as `Loading` (see [`state_of`]).
    pub closed spec fn view(&self) -> Map<u64, LoadState> {
        self.states@
    }

    /// Creates a snapshot with no recorded states: every handle reads as
    /// `Loading`.
    pub fn new() -> (l: Loader)
        ensures
            l@ == Map::<u64, LoadState>::empty(),
    {
        Loader { states: HashMapWithView::new() }
    }

    /// Records that the loader reports `state` for `handle`, replacing any
    /// earlier record for the same handle.
    pub fn set_state(&mut self, handle: Handle, state: LoadState)
        ensures
            final(self)@ == old(self)@.insert(handle.id, state),
    {
        self.states.insert(handle.id, state);
    }

    /// The load state recorded for `handle`: `Loading` when no record exists.
    pub fn load_state(&self, handle: Handle) -> (state: LoadState)
        ensures
            state == state_of(self@, handle.id),
    {
        match self.states.get(&handle.id) {
            Some(s) => *s,
            None => LoadState::Loading,
        }
    }
}

} // verus!
