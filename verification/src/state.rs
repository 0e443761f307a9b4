//! Load states reported by the external asset loader.
use vstd::prelude::*;

verus! {

/// The load status of a single asset handle, as observed at one scheduler
/// tick. `Loading` is transient; `Loaded` and `Failed` are terminal.
#[derive(Copy, Clone, Debug, PartialEq, Eq, Structural)]
pub enum LoadState {
    /// The load is still in flight; its terminal state is not yet known.
    Loading,
    /// The loader produced content for the handle; the content is assumed valid.
    Loaded,
    /// The loader reports that it cannot produce content for the handle.
    Failed,
}

} // verus!
