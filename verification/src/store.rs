//! The snapshot store: one writer, many readers, no history.
//!
//! `SnapshotCell` gives the store's value semantics — a publish replaces the
//! contents whole, a read copies them out — with exact contracts.
//! `SharedSnapshotCell` puts one such cell behind a reader/writer lock whose
//! invariant pins the length, so every reader, under any interleaving with
//! the writer, sees a complete snapshot of the fixed core count: a publish is
//! observed all-or-nothing, never as a partial overwrite.

use vstd::prelude::*;
use vstd::rwlock::RwLock;
use vstd::rwlock::RwLockPredicate;

verus! {

/// What a publish leaves in the store: the new snapshot, whole, with nothing
/// of the previous contents surviving.
pub open spec fn publish_model(cur: Seq<u32>, s: Seq<u32>) -> Seq<u32> {
    s
}

/// What a read returns: the current contents, whole.
pub open spec fn read_model(cur: Seq<u32>) -> Seq<u32> {
    cur
}

/// Law: a read that follows a publish of `s`, with no publish in between,
/// returns exactly `s` — no truncation, no reordering.
pub proof fn lemma_read_after_publish(cur: Seq<u32>, s: Seq<u32>)
    ensures
        read_model(publish_model(cur, s)) == s,
{
}

/// Returns a copy of `src`, element for element.
pub fn copy_values(src: &Vec<u32>) -> (out: Vec<u32>)
    ensures
        out@ == src@,
{
    let mut out: Vec<u32> = Vec::new();
    let mut i: usize = 0;
    while i < src.len()
        invariant
            i <= src@.len(),
            out@ == src@.subrange(0, i as int),
        decreases src@.len() - i,
    {
        out.push(src[i]);
        i = i + 1;
    }
    proof {
        assert(out@ == src@.subrange(0, src@.len() as int));
        assert(src@.subrange(0, src@.len() as int) == src@);
    }
    out
}

/// The most recent utilization snapshot, one basis-point value per core.
/// This is the store's value: the shared, locked form is
/// [`SharedSnapshotCell`].
pub struct SnapshotCell {
    vals: Vec<u32>,
}

impl View for SnapshotCell {
    type V = Seq<u32>;

    closed spec fn view(&self) -> Seq<u32> {
        self.vals@
    }
}

impl SnapshotCell {
    /// A fresh cell holding the all-zero snapshot for `n` cores.
    pub fn new(n: usize) -> (c: Self)
        ensures
            c@.len() == n,
            forall|i: int| 0 <= i < n ==> c@[i] == 0u32,
    {
        let mut vals: Vec<u32> = Vec::new();
        let mut i: usize = 0;
        while i < n
            invariant
                i <= n,
                vals@.len() == i,
                forall|j: int| 0 <= j < i ==> vals@[j] == 0u32,
            decreases n - i,
        {
            vals.push(0);
            i = i + 1;
        }
        SnapshotCell { vals }
    }

    /// Replaces the contents entirely with `s`.
    pub fn publish(&mut self, s: Vec<u32>)
        ensures
            final(self)@ == publish_model(old(self)@, s@),
            final(self)@ == s@,
    {
        self.vals = s;
    }

    /// Returns a copy (not a reference) of the current contents.
    pub fn read(&self) -> (r: Vec<u32>)
        ensures
            r@ == read_model(self@),
            r@ == self@,
    {
        copy_values(&self.vals)
    }

    /// How many values the cell currently holds.
    pub fn len(&self) -> (n: usize)
        ensures
            n == self@.len(),
    {
        self.vals.len()
    }
}

/// The lock invariant of a shared cell: the stored snapshot always has
/// exactly the core count it was created for.
pub struct FixedLen {
    pub n: usize,
}

impl RwLockPredicate<SnapshotCell> for FixedLen {
    open spec fn inv(self, c: SnapshotCell) -> bool {
        c@.len() == self.n
    }
}

/// The single shared instance of the store: created once at startup with an
/// all-zero snapshot sized to the core count, written by the sampler,
/// read by the render loop. The lock is held only for the overwrite or the
/// copy, never across a suspension point, and its invariant guarantees that
/// no reader ever observes a snapshot of the wrong length — publishes are
/// atomic as a whole.
pub struct SharedSnapshotCell {
    n: usize,
    lock: RwLock<SnapshotCell, FixedLen>,
}

impl SharedSnapshotCell {
    #[verifier::type_invariant]
    spec fn wf(&self) -> bool {
        self.lock.pred() == (FixedLen { n: self.n })
    }

    /// The core count this cell was created for, fixed for its lifetime.
    pub closed spec fn core_count(&self) -> nat {
        self.n as nat
    }

    /// A fresh shared cell for `n` cores, holding the all-zero snapshot.
    pub fn new(n: usize) -> (c: Self)
        ensures
            c.core_count() == n,
    {
        let cell = SnapshotCell::new(n);
        let lock = RwLock::new(cell, Ghost(FixedLen { n }));
        SharedSnapshotCell { n, lock }
    }

    /// The core count, as callers must size every publish.
    pub fn cores(&self) -> (n: usize)
        ensures
            n == self.core_count(),
    {
        self.n
    }

    /// Replaces the stored snapshot with `s`, whole: the sole writer's
    /// publish. Readers see either the previous contents or `s`, never a
    /// mixture, and always a full snapshot of the core count.
    pub fn publish(&self, s: Vec<u32>)
        requires
            s@.len() == self.core_count(),
    {
        proof {
            use_type_invariant(self);
        }
        let (mut cell, handle) = self.lock.acquire_write();
        cell.publish(s);
        handle.release_write(cell);
    }

    /// Copies the current snapshot out: the result is always a complete
    /// snapshot of exactly the core count, whatever publishes ran
    /// concurrently — never a partial overwrite.
    pub fn read(&self) -> (r: Vec<u32>)
        ensures
            r@.len() == self.core_count(),
    {
        proof {
            use_type_invariant(self);
        }
        let handle = self.lock.acquire_read();
        let r = handle.borrow().read();
        handle.release_read();
        r
    }
}

} // verus!
