//! The tracked-handle registry and the per-tick resolver.
use crate::container::Container;
use crate::fallback::FallbackAsset;
use crate::handle::Handle;
use crate::loader::state_of;
use crate::loader::Loader;
use crate::state::LoadState;
use vstd::prelude::*;

verus! {

/// True when some handle in `hs` carries the identifier `id`.
pub open spec fn tracks(hs: Seq<Handle>, id: u64) -> bool {
    hs.contains(Handle { id })
}

/// The handles of `hs`, in order, whose load is still in flight under
/// `states`: the registry contents after one resolution pass.
pub open spec fn still_loading(hs: Seq<Handle>, states: Map<u64, LoadState>) -> Seq<Handle>
    decreases hs.len(),
{
    if hs.len() == 0 {
        Seq::empty()
    } else {
        let rest = still_loading(hs.drop_last(), states);
        if state_of(states, hs.last().id) == LoadState::Loading {
            rest.push(hs.last())
        } else {
            rest
        }
    }
}

/// True when the resolution pass overwrites the slot `id`: some tracked
/// handle carries `id` and its load has failed.
pub open spec fn substitutes(hs: Seq<Handle>, states: Map<u64, LoadState>, id: u64) -> bool {
    tracks(hs, id) && state_of(states, id) == LoadState::Failed
}

/// The abstract container after one resolution pass over the tracked
/// handles `hs`: every slot whose handle failed holds the fallback content
/// `fb`; every other slot is untouched.
pub open spec fn substituted(
    images: Map<u64, Seq<u8>>,
    hs: Seq<Handle>,
    states: Map<u64, LoadState>,
    fb: Seq<u8>,
) -> Map<u64, Seq<u8>> {
    Map::new(
        |id: u64| images.contains_key(id) || substitutes(hs, states, id),
        |id: u64|
            if substitutes(hs, states, id) {
                fb
            } else {
                images[id]
            },
    )
}

/// Appending a handle to the registry extends the resolution result by that
/// handle exactly when its load is still in flight.
proof fn lemma_still_loading_push(hs: Seq<Handle>, states: Map<u64, LoadState>, h: Handle)
    ensures
        still_loading(hs.push(h), states) == if state_of(states, h.id) == LoadState::Loading {
            still_loading(hs, states).push(h)
        } else {
            still_loading(hs, states)
        },
{
    assert(hs.push(h).drop_last() =~= hs);
    assert(hs.push(h).last() == h);
}

/// Law: the registry after a resolution pass holds exactly the handles that
/// were tracked before it and are still loading — nothing else is retained,
/// and nothing new is admitted.
pub proof fn lemma_still_loading_membership(hs: Seq<Handle>, states: Map<u64, LoadState>)
    ensures
        forall|h: Handle|
            #[trigger] still_loading(hs, states).contains(h) <==> (hs.contains(h) && state_of(
                states,
                h.id,
            ) == LoadState::Loading),
    decreases hs.len(),
{
    broadcast use vstd::seq_lib::lemma_seq_contains_after_push;

    if hs.len() == 0 {
    } else {
        let last = hs.last();
        let rest = hs.drop_last();
        lemma_still_loading_membership(rest, states);
        assert(rest.push(last) =~= hs);
        assert forall|h: Handle|
            #[trigger] still_loading(hs, states).contains(h) <==> (hs.contains(h) && state_of(
                states,
                h.id,
            ) == LoadState::Loading) by {
            assert(hs.contains(h) <==> rest.push(last).contains(h));
            assert(rest.push(last).contains(h) <==> last == h || rest.contains(h));
            if state_of(states, last.id) == LoadState::Loading {
                assert(still_loading(hs, states) == still_loading(rest, states).push(last));
                assert(still_loading(rest, states).push(last).contains(h) <==> last == h
                    || still_loading(rest, states).contains(h));
            } else {
                assert(still_loading(hs, states) == still_loading(rest, states));
            }
        };
    }
}

/// Appending a handle to the tracked set changes the resolution result for
/// the container in one way only: a handle whose load failed directs the
/// fallback content into its slot; any other handle changes nothing.
proof fn lemma_substituted_push(
    images: Map<u64, Seq<u8>>,
    hs: Seq<Handle>,
    states: Map<u64, LoadState>,
    fb: Seq<u8>,
    h: Handle,
)
    ensures
        state_of(states, h.id) == LoadState::Failed ==> substituted(images, hs.push(h), states, fb)
            == substituted(images, hs, states, fb).insert(h.id, fb),
        state_of(states, h.id) != LoadState::Failed ==> substituted(images, hs.push(h), states, fb)
            == substituted(images, hs, states, fb),
{
    broadcast use vstd::seq_lib::lemma_seq_contains_after_push;

    if state_of(states, h.id) == LoadState::Failed {
        assert(substituted(images, hs.push(h), states, fb) =~= substituted(
            images,
            hs,
            states,
            fb,
        ).insert(h.id, fb));
    } else {
        assert(substituted(images, hs.push(h), states, fb) =~= substituted(
            images,
            hs,
            states,
            fb,
        ));
    }
}

/// Law (idempotent removal): a handle that is no longer tracked is never
/// reconsidered. A resolution pass over a registry that does not hold `h`
/// does not re-admit `h` and leaves `h`'s container slot exactly as it was,
/// however many further ticks occur.
pub proof fn lemma_removed_handle_never_reconsidered(
    images: Map<u64, Seq<u8>>,
    hs: Seq<Handle>,
    states: Map<u64, LoadState>,
    fb: Seq<u8>,
    h: Handle,
)
    requires
        !hs.contains(h),
    ensures
        !still_loading(hs, states).contains(h),
        substituted(images, hs, states, fb).contains_key(h.id) == images.contains_key(h.id),
        images.contains_key(h.id) ==> substituted(images, hs, states, fb)[h.id] == images[h.id],
{
    lemma_still_loading_membership(hs, states);
    assert(Handle { id: h.id } == h);
}

/// Law (substitution correctness): a tracked handle whose load failed has
/// its container slot overwritten with the fallback content, and is dropped
/// from the registry.
pub proof fn lemma_failed_handle_substituted(
    images: Map<u64, Seq<u8>>,
    hs: Seq<Handle>,
    states: Map<u64, LoadState>,
    fb: Seq<u8>,
    h: Handle,
)
    requires
        hs.contains(h),
        state_of(states, h.id) == LoadState::Failed,
    ensures
        substituted(images, hs, states, fb).contains_key(h.id),
        substituted(images, hs, states, fb)[h.id] == fb,
        !still_loading(hs, states).contains(h),
{
    lemma_still_loading_membership(hs, states);
    assert(Handle { id: h.id } == h);
}

/// Law (loaded handles untouched): a handle whose load completed has its
/// container slot left exactly as the loader filled it, and is dropped from
/// the registry.
pub proof fn lemma_loaded_handle_untouched(
    images: Map<u64, Seq<u8>>,
    hs: Seq<Handle>,
    states: Map<u64, LoadState>,
    fb: Seq<u8>,
    h: Handle,
)
    requires
        state_of(states, h.id) == LoadState::Loaded,
    ensures
        substituted(images, hs, states, fb).contains_key(h.id) == images.contains_key(h.id),
        images.contains_key(h.id) ==> substituted(images, hs, states, fb)[h.id] == images[h.id],
        !still_loading(hs, states).contains(h),
{
    lemma_still_loading_membership(hs, states);
}

/// Law (empty registry is a no-op): a resolution pass over an empty
/// registry retains nothing and changes no container slot.
pub proof fn lemma_empty_registry_noop(
    images: Map<u64, Seq<u8>>,
    states: Map<u64, LoadState>,
    fb: Seq<u8>,
)
    ensures
        still_loading(Seq::<Handle>::empty(), states) == Seq::<Handle>::empty(),
        substituted(images, Seq::<Handle>::empty(), states, fb) == images,
{
    assert(substituted(images, Seq::<Handle>::empty(), states, fb) =~= images);
}

/// The ordered, mutable collection of handles awaiting resolution. Any
/// producer may register a handle to put it under fallback-protection;
/// duplicates are permitted and harmless. Handles leave only through
/// [`ReplaceIfMissing::poll`], once a terminal load state is observed.
pub struct ReplaceIfMissing {
    handles: Vec<Handle>,
}

impl ReplaceIfMissing {
    /// The tracked handles, in registration order.
    pub closed spec fn view(&self) -> Seq<Handle> {
        self.handles@
    }

    /// Creates an empty registry.
    pub fn new() -> (registry: Self)
        ensures
            registry@ == Seq::<Handle>::empty(),
    {
        ReplaceIfMissing { handles: Vec::new() }
    }

    /// Appends `handle` to the registry. No constraint is placed on the
    /// handle; registering one twice is allowed and harmless.
    pub fn register(&mut self, handle: Handle)
        ensures
            final(self)@ == old(self)@.push(handle),
    {
        self.handles.push(handle);
    }

    /// The number of handles currently tracked.
    pub fn len(&self) -> (n: usize)
        ensures
            n == self@.len(),
    {
        self.handles.len()
    }

    /// The handle at position `i` in registration order, when `i` is in
    /// range.
    pub fn tracked_at(&self, i: usize) -> (h: Option<Handle>)
        ensures
            i < self@.len() ==> h == Some(self@[i as int]),
            i >= self@.len() ==> h == None::<Handle>,
    {
        if i < self.handles.len() {
            Some(self.handles[i])
        } else {
            None
        }
    }

    /// Returns true when `handle` is currently tracked.
    pub fn is_tracked(&self, handle: Handle) -> (present: bool)
        ensures
            present == self@.contains(handle),
    {
        let mut i: usize = 0;
        while i < self.handles.len()
            invariant
                i <= self.handles@.len(),
                forall|j: int| 0 <= j < i ==> self.handles@[j] != handle,
            decreases self.handles@.len() - i,
        {
            if self.handles[i] == handle {
                return true;
            }
            i = i + 1;
        }
        false
    }

    /// The resolution step, intended to run once per scheduler tick.
    ///
    /// If the registry is empty, or the fallback asset's own content is not
    /// yet in `images`, nothing changes. Otherwise every tracked handle is
    /// classified under `loader`'s states: a handle still `Loading` is
    /// retained for the next tick; a `Failed` handle has its `images` slot
    /// overwritten with an independent copy of the fallback content and is
    /// dropped; a `Loaded` handle is dropped with its slot untouched.
    ///
    /// Should the fallback image's own load fail, its content never
    /// appears in `images` and every tick defers: tracked handles then
    /// remain tracked indefinitely. That keeps substitution best-effort —
    /// no error is surfaced to the caller.
    pub fn poll(&mut self, loader: &Loader, fallback: &FallbackAsset, images: &mut Container)
        ensures
            old(images)@.contains_key(fallback.spec_handle().id) ==> final(self)@ == still_loading(
                old(self)@,
                loader@,
            ),
            old(images)@.contains_key(fallback.spec_handle().id) ==> final(images)@ == substituted(
                old(images)@,
                old(self)@,
                loader@,
                old(images)@[fallback.spec_handle().id],
            ),
            !old(images)@.contains_key(fallback.spec_handle().id) ==> final(self)@ == old(self)@,
            !old(images)@.contains_key(fallback.spec_handle().id) ==> final(images)@ == old(
                images,
            )@,
    {
        let ghost fb = old(images)@[fallback.spec_handle().id];
        if self.handles.len() == 0 {
            proof {
                assert(still_loading(self.handles@, loader@) == Seq::<Handle>::empty());
                assert(self.handles@ =~= Seq::<Handle>::empty());
                assert(substituted(images@, self.handles@, loader@, fb) =~= images@);
            }
            return;
        }
        let fb_content: Vec<u8> = match images.get(fallback.handle()) {
            Some(content) => content.clone(),
            None => {
                return;
            },
        };
        proof {
            assert(fb_content@ =~= fb);
        }
        let ghost hs0 = self.handles@;
        let ghost states = loader@;
        let ghost images0 = images@;
        let mut retained: Vec<Handle> = Vec::new();
        let mut i: usize = 0;
        proof {
            assert(hs0.take(0) =~= Seq::<Handle>::empty());
            assert(substituted(images0, hs0.take(0), states, fb) =~= images0);
        }
        while i < self.handles.len()
            invariant
                i <= hs0.len(),
                self.handles@ == hs0,
                fb_content@ == fb,
                retained@ == still_loading(hs0.take(i as int), states),
                images@ == substituted(images0, hs0.take(i as int), states, fb),
            decreases hs0.len() - i,
        {
            let h = self.handles[i];
            let state = loader.load_state(h);
            proof {
                assert(hs0.take(i as int + 1) =~= hs0.take(i as int).push(h));
                lemma_still_loading_push(hs0.take(i as int), states, h);
                lemma_substituted_push(images0, hs0.take(i as int), states, fb, h);
            }
            if state == LoadState::Loading {
                retained.push(h);
            } else if state == LoadState::Failed {
                let replacement = fb_content.clone();
                proof {
                    assert(replacement@ =~= fb_content@);
                }
                images.set(h, replacement);
            }
            i = i + 1;
        }
        proof {
            assert(hs0.take(hs0.len() as int) =~= hs0);
        }
        self.handles = retained;
    }
}

impl Default for ReplaceIfMissing {
    /// The default registry is empty.
    fn default() -> (registry: Self)
        ensures
            registry@ == Seq::<Handle>::empty(),
    {
        ReplaceIfMissing { handles: Vec::new() }
    }
}

} // verus!
