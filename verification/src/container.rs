//! Model of the host's resource container: a key-value store mapping
//! handles to loaded image content.
use crate::handle::Handle;
use vstd::hash_map::HashMapWithView;
use vstd::prelude::*;

verus! {

broadcast use vstd::std_specs::hash::axiom_u64_obeys_hash_table_key_model;

/// The resource container this core reads from and writes into. The host
/// application owns the real store; this type holds the same association of
/// handle to content, keyed by the handle's identifier, with image content
/// as plain bytes.
pub struct Container {
    slots: HashMapWithView<u64, Vec<u8>>,
}

impl Container {
    /// The abstract contents: a map from handle identifier to the byte
    /// content stored under it.
    pub closed spec fn view(&self) -> Map<u64, Seq<u8>> {
        self.slots@.map_values(|v: Vec<u8>| v@)
    }

    /// Creates an empty container.
    pub fn new() -> (c: Container)
        ensures
            c@ == Map::<u64, Seq<u8>>::empty(),
    {
        let c = Container { slots: HashMapWithView::new() };
        proof {
            assert(c@ =~= Map::<u64, Seq<u8>>::empty());
        }
        c
    }

    /// The number of handles that currently have content.
    pub fn len(&self) -> (n: usize)
        ensures
            n == self@.len(),
    {
        proof {
            assert(self.slots@.dom() =~= self@.dom());
        }
        self.slots.len()
    }

    /// Returns true when the container holds content for `handle`.
    pub fn contains(&self, handle: Handle) -> (present: bool)
        ensures
            present == self@.contains_key(handle.id),
    {
        self.slots.contains_key(&handle.id)
    }

    /// Looks up the content stored under `handle`, if any.
    pub fn get(&self, handle: Handle) -> (content: Option<&Vec<u8>>)
        ensures
            match content {
                Some(v) => self@.contains_key(handle.id) && v@ == self@[handle.id],
                None => !self@.contains_key(handle.id),
            },
    {
        self.slots.get(&handle.id)
    }

    /// Stores `content` under `handle`, overwriting in place any content
    /// previously stored there.
    pub fn set(&mut self, handle: Handle, content: Vec<u8>)
        ensures
            final(self)@ == old(self)@.insert(handle.id, content@),
    {
        let ghost expected = old(self)@.insert(handle.id, content@);
        self.slots.insert(handle.id, content);
        proof {
            assert(self@ =~= expected);
        }
    }
}

} // verus!
