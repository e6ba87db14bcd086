//! Reference-counted ownership of opaque native graphics objects.
//!
//! A [`ComPtr`] is one logical owner of a reference-counted native object
//! (device, buffer, view, shader, sampler, texture). The native side of the
//! count is modelled by a [`RefLedger`]: a map from the object's address to
//! the number of owners the process currently holds. Acquiring a just-created
//! object starts its count at one, cloning a handle increments it, releasing
//! decrements it, and the entry disappears when the last owner lets go.
//! Ownership transfer consumes the source handle, so a released handle can
//! never be released again.

use std::collections::HashMap;

use vstd::prelude::*;

use crate::error::RenderError;

verus! {

broadcast use vstd::std_specs::hash::group_hash_axioms;

/// One owner of a non-null opaque pointer to a reference-counted native
/// object. A handle is either live (it refers to an object whose count it
/// owns one unit of) or a dangling placeholder that must never be
/// dereferenced.
pub struct ComPtr {
    raw: usize,
    live: bool,
}

/// The ledger of native reference counts: for each object address, how many
/// owners the process holds. Stands for the counts kept inside the native
/// objects themselves.
pub struct RefLedger {
    counts: HashMap<usize, u64>,
}

impl View for RefLedger {
    type V = Map<usize, u64>;

    closed spec fn view(&self) -> Map<usize, u64> {
        self.counts@
    }
}

/// The ledger after one more owner of the object at `raw` is added.
pub open spec fn retained(m: Map<usize, u64>, raw: usize) -> Map<usize, u64> {
    m.insert(raw, (m[raw] + 1) as u64)
}

/// The ledger after one owner of the object at `raw` lets go: the entry
/// disappears when the last owner releases.
pub open spec fn released(m: Map<usize, u64>, raw: usize) -> Map<usize, u64> {
    if m[raw] == 1 {
        m.remove(raw)
    } else {
        m.insert(raw, (m[raw] - 1) as u64)
    }
}

impl RefLedger {
    /// Every tracked address is non-null and owned at least once.
    pub open spec fn wf(self) -> bool {
        forall|k: usize| #[trigger] self@.contains_key(k) ==> k != 0 && 1 <= self@[k]
    }

    /// An empty ledger: no native object is owned yet.
    pub fn new() -> (r: RefLedger)
        ensures
            r@ == Map::<usize, u64>::empty(),
            r.wf(),
    {
        RefLedger { counts: HashMap::new() }
    }

    /// How many owners the object at `raw` currently has; zero if it is not
    /// tracked at all.
    pub fn count_of(&self, raw: usize) -> (n: u64)
        ensures
            n == if self@.contains_key(raw) {
                self@[raw]
            } else {
                0u64
            },
    {
        match self.counts.get(&raw) {
            Some(c) => *c,
            None => 0,
        }
    }

    /// Begin tracking a just-created object: its native count starts at one.
    pub fn track_new(&mut self, raw: usize)
        requires
            old(self).wf(),
            raw != 0,
            !old(self)@.contains_key(raw),
        ensures
            final(self)@ == old(self)@.insert(raw, 1u64),
            final(self).wf(),
    {
        self.counts.insert(raw, 1);
    }

    /// One more owner of the object at `raw`.
    pub fn retain(&mut self, raw: usize)
        requires
            old(self).wf(),
            old(self)@.contains_key(raw),
            old(self)@[raw] < u64::MAX,
        ensures
            final(self)@ == retained(old(self)@, raw),
            final(self).wf(),
    {
        let c = match self.counts.get(&raw) {
            Some(c) => *c,
            None => 0,
        };
        self.counts.insert(raw, c + 1);
    }

    /// One owner of the object at `raw` lets go; the native object is
    /// destroyed (and the entry removed) when the last owner releases.
    pub fn release(&mut self, raw: usize)
        requires
            old(self).wf(),
            old(self)@.contains_key(raw),
        ensures
            final(self)@ == released(old(self)@, raw),
            final(self).wf(),
    {
        let c = match self.counts.get(&raw) {
            Some(c) => *c,
            None => 1,
        };
        if c == 1 {
            self.counts.remove(&raw);
        } else {
            self.counts.insert(raw, c - 1);
        }
    }
}

/// The given raw creation results can all be taken into the ledger: every
/// non-null address among them is untracked, and no two name the same
/// object.
pub open spec fn fresh_handles(m: Map<usize, u64>, raws: Seq<usize>) -> bool {
    &&& forall|i: int|
        0 <= i < raws.len() && raws[i] != 0 ==> !m.contains_key(#[trigger] raws[i])
    &&& forall|i: int, j: int|
        #![trigger raws[i], raws[j]]
        0 <= i < j < raws.len() && raws[i] != 0 ==> raws[i] != raws[j]
}

/// Law: a clone/release pair is a no-op on the reference counts. Cloning a
/// handle and then releasing the clone leaves the ledger exactly as it was.
pub proof fn lemma_clone_release_roundtrip(m: Map<usize, u64>, raw: usize)
    requires
        m.contains_key(raw),
        1 <= m[raw] < u64::MAX,
    ensures
        released(retained(m, raw), raw) == m,
{
    let m2 = retained(m, raw);
    assert(m2[raw] == m[raw] + 1);
    assert(released(m2, raw) =~= m);
}

impl ComPtr {
    /// The address of the native object this handle refers to.
    pub closed spec fn addr(self) -> usize {
        self.raw
    }

    /// Whether the handle owns one unit of a native object's count, as
    /// opposed to being a dangling placeholder.
    pub closed spec fn is_live(self) -> bool {
        self.live
    }

    /// Wrap a just-created, non-null native object. The object arrives with
    /// its count already at one; [`ComPtr::acquire`] also records that unit
    /// in the ledger.
    pub fn new(raw: usize) -> (r: ComPtr)
        requires
            raw != 0,
        ensures
            r.addr() == raw,
            r.is_live(),
    {
        ComPtr { raw, live: true }
    }

    /// A placeholder handle for use before initialization. It refers to no
    /// object and must never be dereferenced or released.
    pub fn dangling() -> (r: ComPtr)
        ensures
            !r.is_live(),
    {
        ComPtr { raw: 0, live: false }
    }

    /// Take ownership of the result of a native creation call. A null
    /// address is the signal that the call failed; it yields
    /// [`RenderError::InvalidHandle`] and must short-circuit construction of
    /// the owning component.
    pub fn acquire(ledger: &mut RefLedger, raw: usize) -> (r: Result<ComPtr, RenderError>)
        requires
            old(ledger).wf(),
            raw != 0 ==> !old(ledger)@.contains_key(raw),
        ensures
            final(ledger).wf(),
            match r {
                Ok(h) => {
                    &&& raw != 0
                    &&& h.addr() == raw
                    &&& h.is_live()
                    &&& final(ledger)@ == old(ledger)@.insert(raw, 1u64)
                },
                Err(e) => {
                    &&& raw == 0
                    &&& e == RenderError::InvalidHandle
                    &&& final(ledger)@ == old(ledger)@
                },
            },
    {
        if raw == 0 {
            Err(RenderError::InvalidHandle)
        } else {
            ledger.track_new(raw);
            Ok(ComPtr::new(raw))
        }
    }

    /// An independent owner of the same object: the count goes up by one.
    pub fn clone_handle(&self, ledger: &mut RefLedger) -> (r: ComPtr)
        requires
            old(ledger).wf(),
            self.is_live(),
            old(ledger)@.contains_key(self.addr()),
            old(ledger)@[self.addr()] < u64::MAX,
        ensures
            final(ledger).wf(),
            r.addr() == self.addr(),
            r.is_live(),
            final(ledger)@ == retained(old(ledger)@, self.addr()),
    {
        ledger.retain(self.raw);
        ComPtr { raw: self.raw, live: true }
    }

    /// A counted query-style cast to a related native interface of the same
    /// object: the result is an independent owner, never an uncounted alias.
    pub fn query_interface(&self, ledger: &mut RefLedger) -> (r: ComPtr)
        requires
            old(ledger).wf(),
            self.is_live(),
            old(ledger)@.contains_key(self.addr()),
            old(ledger)@[self.addr()] < u64::MAX,
        ensures
            final(ledger).wf(),
            r.addr() == self.addr(),
            r.is_live(),
            final(ledger)@ == retained(old(ledger)@, self.addr()),
    {
        self.clone_handle(ledger)
    }

    /// Expose the address for a native call without transferring ownership.
    pub fn as_raw(&self) -> (r: usize)
        requires
            self.is_live(),
        ensures
            r == self.addr(),
    {
        self.raw
    }

    /// Give this owner's unit of the count back. Consumes the handle, so a
    /// released handle cannot be dropped or released a second time.
    pub fn release(self, ledger: &mut RefLedger)
        requires
            old(ledger).wf(),
            self.is_live(),
            old(ledger)@.contains_key(self.addr()),
        ensures
            final(ledger).wf(),
            final(ledger)@ == released(old(ledger)@, self.addr()),
    {
        ledger.release(self.raw);
    }
}

} // verus!
