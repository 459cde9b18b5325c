//! Accounting for native resource handles.
//!
//! Every session owns one slot in a `HandleTable`. A slot is live from the
//! moment it is allocated until it is released, and `release` demands a live
//! slot, so no slot can ever be released twice. Phase transitions move a
//! slot between session values without touching the table, which is what
//! makes "released exactly once" hold across every reachable phase path.

use vstd::prelude::*;

verus! {

/// Tracks which native handles are still live. The view is one `bool` per
/// slot ever allocated: `true` while the handle is live, `false` once it
/// has been released.
pub struct HandleTable {
    live: Vec<bool>,
}

impl View for HandleTable {
    type V = Seq<bool>;

    closed spec fn view(&self) -> Seq<bool> {
        self.live@
    }
}

impl HandleTable {
    /// A slot that has been allocated and not yet released.
    pub open spec fn is_live(&self, h: int) -> bool {
        0 <= h < self@.len() && self@[h]
    }

    /// A slot that has been allocated and then released.
    pub open spec fn is_released(&self, h: int) -> bool {
        0 <= h < self@.len() && !self@[h]
    }

    pub fn new() -> (t: HandleTable)
        ensures
            t@ =~= Seq::<bool>::empty(),
    {
        HandleTable { live: Vec::new() }
    }

    /// Allocates a fresh slot for a newly created native handle.
    pub fn allocate(&mut self) -> (h: usize)
        ensures
            h == old(self)@.len(),
            final(self)@ =~= old(self)@.push(true),
            final(self).is_live(h as int),
    {
        let h = self.live.len();
        self.live.push(true);
        h
    }

    /// How many slots have ever been allocated.
    pub fn slot_count(&self) -> (n: usize)
        ensures
            n == self@.len(),
    {
        self.live.len()
    }

    /// Whether a slot still holds a live handle.
    pub fn slot_live(&self, h: usize) -> (b: bool)
        requires
            h < self@.len(),
        ensures
            b == self@[h as int],
    {
        self.live[h]
    }

    /// Releases a live slot. A released slot can never be released again:
    /// this precondition is what rules out a double free.
    pub fn release(&mut self, h: usize)
        requires
            old(self).is_live(h as int),
        ensures
            final(self)@ =~= old(self)@.update(h as int, false),
            final(self).is_released(h as int),
    {
        self.live.set(h, false);
    }
}

/// A slot that has been released stays released under every further table
/// operation: allocation only appends new slots and release only turns a
/// live slot off, so no step can revive slot `h`.
pub proof fn lemma_released_stays_released(pre: Seq<bool>, post: Seq<bool>, h: int)
    requires
        0 <= h < pre.len(),
        !pre[h],
        post == pre.push(true) || exists|j: int| 0 <= j < pre.len() && pre[j] && post == pre.update(j, false),
    ensures
        0 <= h < post.len(),
        !post[h],
{
}

} // verus!
