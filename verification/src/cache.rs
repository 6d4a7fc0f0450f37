//! The per-library handle cache: one slot per declared library, holding the
//! handle of the loaded library or the null sentinel.
//!
//! The slot is lock-free in spirit: acquisition reads the slot, and only when
//! it is empty asks the platform loader for a handle, which is then stored
//! unconditionally (last write wins; a failed load stores the null sentinel
//! again, so the next acquisition retries). The platform's load and unload
//! calls themselves happen outside this crate; the cache exposes the read
//! (`get`), the unconditional store of a loader result
//! (`load_and_cache_lib`), and the reset (`free_lib`), each with an exact
//! contract, together with the transition functions `acquire_step` and
//! `release_step` that describe one whole acquisition or release.

use vstd::prelude::*;

verus! {

/// An opaque, copyable reference to a loaded library instance. The address
/// `0` is the null sentinel: no library.
#[derive(Clone, Copy, PartialEq, Eq, Structural, Debug)]
pub struct DllHandle {
    pub addr: usize,
}

impl DllHandle {
    /// The null handle: the value the platform loader reports on failure.
    pub fn null() -> (h: DllHandle)
        ensures
            h.addr == 0,
    {
        DllHandle { addr: 0 }
    }

    /// True when this handle is the null sentinel.
    pub fn is_null(&self) -> (r: bool)
        ensures
            r == (self.addr == 0),
    {
        self.addr == 0
    }
}

/// What a read of the slot yields: `None` when the slot is empty (the caller
/// must invoke the platform loader and store its result), otherwise the
/// cached handle.
pub open spec fn spec_get(slot: usize) -> Option<DllHandle> {
    if slot == 0 {
        None
    } else {
        Some((DllHandle { addr: slot }))
    }
}

/// What a release takes out of the slot: `None` when the slot is empty
/// (nothing to unload), otherwise the handle that must be handed to the
/// platform unloader.
pub open spec fn spec_free(slot: usize) -> Option<DllHandle> {
    if slot == 0 {
        None
    } else {
        Some((DllHandle { addr: slot }))
    }
}

/// One complete acquisition, as a pure transition: from the observed slot
/// value and the handle the platform loader would return, to
/// (new slot value, handle returned to the caller, whether the loader ran).
///
/// A non-empty slot is returned as-is without invoking the loader; an empty
/// slot makes the loader run and its result is stored and returned
/// unconditionally, even when it is the null sentinel — a failed load is
/// retried on the next acquisition, never remembered.
pub open spec fn acquire_step(slot: usize, loaded: usize) -> (usize, usize, bool) {
    if slot != 0 {
        (slot, slot, false)
    } else {
        (loaded, loaded, true)
    }
}

/// One complete release, as a pure transition: from the observed slot value
/// and the success the platform unloader would report, to
/// (new slot value, result returned to the caller). The slot is empty
/// afterwards in every case; the result is `false` when there was nothing to
/// unload, else the unloader's verdict.
pub open spec fn release_step(slot: usize, unload_ok: bool) -> (usize, bool) {
    if slot != 0 {
        (0usize, unload_ok)
    } else {
        (0usize, false)
    }
}

/// The handle cache slot for one declared library. Created empty; shared
/// process-wide by every binding generated for that library.
pub struct DllCache {
    handle: usize,
}

impl DllCache {
    /// The current slot value; `0` is the null sentinel.
    pub closed spec fn slot(&self) -> usize {
        self.handle
    }

    /// A fresh cache: no library loaded.
    pub fn empty() -> (c: DllCache)
        ensures
            c.slot() == 0,
    {
        DllCache { handle: 0 }
    }

    fn load_handle(&self) -> (h: usize)
        ensures
            h == self.slot(),
    {
        self.handle
    }

    fn store_handle(&mut self, handle: usize)
        ensures
            final(self).slot() == handle,
    {
        self.handle = handle;
    }

    /// The lock-free fast path of acquisition: `Some` of the cached handle
    /// when a library is loaded, `None` when the slot is empty — the caller
    /// must then invoke the platform loader and hand its result to
    /// `load_and_cache_lib`.
    pub fn get(&self) -> (r: Option<DllHandle>)
        ensures
            r == spec_get(self.slot()),
            r is Some <==> self.slot() != 0,
    {
        let handle: usize = self.load_handle();
        if handle == 0 {
            None
        } else {
            Some(DllHandle { addr: handle })
        }
    }

    /// The slow path of acquisition: store whatever handle the platform
    /// loader returned — the null sentinel too, so that a failed load is
    /// retried on the next acquisition — and return it to the caller.
    pub fn load_and_cache_lib(&mut self, loaded: DllHandle) -> (h: DllHandle)
        ensures
            final(self).slot() == loaded.addr,
            h == loaded,
            (final(self).slot(), h.addr, true) == acquire_step(0, loaded.addr),
    {
        self.store_handle(loaded.addr);
        loaded
    }

    /// Explicit unload: empty the slot. Returns `None` when no library was
    /// loaded (the release reports `false` then), otherwise the handle that
    /// the caller must pass to the platform unloader, whose verdict becomes
    /// the release's result.
    pub fn free_lib(&mut self) -> (r: Option<DllHandle>)
        ensures
            final(self).slot() == 0,
            r == spec_free(old(self).slot()),
            r is Some <==> old(self).slot() != 0,
    {
        let handle: usize = self.load_handle();
        if handle == 0 {
            None
        } else {
            self.store_handle(0);
            Some(DllHandle { addr: handle })
        }
    }
}

/// Two acquisitions in sequence on an uncontended slot that starts empty,
/// where the load succeeds, return the same handle both times, and the
/// platform loader runs exactly once (on the first acquisition only).
pub proof fn lemma_acquire_twice(loaded_first: usize, loaded_second: usize)
    requires
        loaded_first != 0,
    ensures
        ({
            let (s1, h1, ran1) = acquire_step(0, loaded_first);
            let (s2, h2, ran2) = acquire_step(s1, loaded_second);
            h1 == h2 && ran1 && !ran2 && s2 == s1
        }),
{
}

/// A release on a never-acquired (empty) slot reports `false` and leaves the
/// slot empty, whatever the platform unloader would have said.
pub proof fn lemma_release_never_acquired(unload_ok: bool)
    ensures
        release_step(0, unload_ok) == (0usize, false),
{
}

/// A release immediately after a successful acquisition reports exactly the
/// platform unloader's verdict and empties the slot, so that the next
/// acquisition runs the platform loader again.
pub proof fn lemma_release_after_acquire(loaded: usize, next_loaded: usize, unload_ok: bool)
    requires
        loaded != 0,
    ensures
        ({
            let (s1, h1, ran1) = acquire_step(0, loaded);
            let (s2, ok) = release_step(s1, unload_ok);
            let (s3, h3, ran3) = acquire_step(s2, next_loaded);
            ok == unload_ok && s2 == 0 && ran3
        }),
{
}

/// A failed load is retried, never cached: an acquisition whose load
/// returned the null sentinel leaves the slot empty, so the next
/// acquisition runs the platform loader again instead of short-circuiting
/// on a remembered failure.
pub proof fn lemma_failed_load_retried(next_loaded: usize)
    ensures
        acquire_step(0, 0).0 == 0,
        acquire_step(acquire_step(0, 0).0, next_loaded).2,
{
}

/// The duplicate-load race, as the model sees it: two first-time acquirers
/// each observe the empty slot and each load successfully. Every one of them
/// returns its own non-null handle, and whichever store lands last leaves in
/// the slot a handle that one of the two loads returned — never a value from
/// nowhere.
pub proof fn lemma_concurrent_first_acquire(loaded_a: usize, loaded_b: usize, a_stores_last: bool)
    requires
        loaded_a != 0,
        loaded_b != 0,
    ensures
        acquire_step(0, loaded_a).1 != 0,
        acquire_step(0, loaded_b).1 != 0,
        ({
            let slot_after = if a_stores_last {
                acquire_step(0, loaded_a).0
            } else {
                acquire_step(0, loaded_b).0
            };
            slot_after == loaded_a || slot_after == loaded_b
        }),
{
}

} // verus!
