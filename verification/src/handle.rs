//! Opaque asset handles.
use vstd::prelude::*;

verus! {

/// An opaque, copyable identifier referencing a loaded-or-loading resource
/// owned by the host's resource container. This core never interprets the
/// identifier beyond equality; it only holds copies of handles it does not
/// manage the lifecycle of.
#[derive(Copy, Clone, Debug, PartialEq, Eq, Structural)]
pub struct Handle {
    /// The host-assigned identifier of the resource.
    pub id: u64,
}

impl Handle {
    /// Wraps a host-assigned identifier as a handle.
    pub fn new(id: u64) -> (h: Handle)
        ensures
            h.id == id,
    {
        Handle { id }
    }
}

} // verus!
