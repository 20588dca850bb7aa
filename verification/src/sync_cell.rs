//! The synchronized cell: a reader-writer cell with a cached snapshot.
//!
//! A [`SyncCell`] owns a master copy of a value — the committed value, which
//! structural writers check out, mutate and commit back — and a cached copy
//! used by the hot broadcast path.  The cached copy may lag behind the
//! committed value until the next synchronized read; a synchronized read
//! always observes the latest committed value, so a write followed by a
//! broadcast in the same call sequence always sees its own write.
//!
//! In this sequential model a concurrent lock discipline degenerates to
//! plain ownership; what remains, and what is verified, is the cell's
//! observable contract: which value each kind of read returns relative to
//! the writes committed before it.

use vstd::prelude::*;

verus! {

/// A value that can produce an independently owned copy with the same
/// abstract value.
pub trait Snapshot: View + Sized {
    /// Returns a copy whose abstract value equals this one's.
    fn snapshot(&self) -> (r: Self)
        ensures
            r@ == self@,
    ;
}

/// A cell holding a master (committed) copy and a cached copy of a value.
pub struct SyncCell<T: Snapshot> {
    master: T,
    cache: T,
}

impl<T: Snapshot> SyncCell<T> {
    /// The value last committed through [`SyncCell::commit`] (or given at
    /// construction): what every synchronized read observes.
    pub closed spec fn committed(&self) -> T {
        self.master
    }

    /// The cached copy: what an unsynchronized read observes.  Never newer
    /// than the committed value; possibly older.
    pub closed spec fn cached(&self) -> T {
        self.cache
    }

    /// Creates a cell committed to `t`, with the cache in sync.
    pub fn new(t: T) -> (r: Self)
        ensures
            r.committed() == t,
            r.cached()@ == t@,
    {
        let cache = t.snapshot();
        SyncCell { master: t, cache }
    }

    /// Checks out a private copy of the committed value, for structural
    /// mutation (to be committed back) or for immediate use as a broadcast
    /// scratchpad.
    pub fn checkout(&self) -> (r: T)
        ensures
            r@ == self.committed()@,
    {
        self.master.snapshot()
    }

    /// Commits `t` as the new committed value.  The cached copy is left as
    /// it is and lags until the next synchronized read.
    pub fn commit(&mut self, t: T)
        ensures
            final(self).committed() == t,
            final(self).cached() == old(self).cached(),
    {
        self.master = t;
    }

    /// Synchronized read: refreshes the cached copy from the committed value
    /// and returns a snapshot of it.
    pub fn read(&mut self) -> (r: T)
        ensures
            r@ == old(self).committed()@,
            final(self).committed() == old(self).committed(),
            final(self).cached()@ == old(self).committed()@,
    {
        self.cache = self.master.snapshot();
        self.cache.snapshot()
    }

    /// Unsynchronized read: returns the cached copy as it stands, which may
    /// lag behind the committed value.
    pub fn read_unsync(&self) -> (r: &T)
        ensures
            *r == self.cached(),
    {
        &self.cache
    }
}

} // verus!
