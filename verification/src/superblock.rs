//! The superblock: aggregate counters over the inode table, kept redundant
//! with it for constant-time capacity checks. Mutated only by the table's
//! create and delete paths.

use vstd::prelude::*;

use crate::MAX_FILES;

verus! {

/// The counters: total slots, occupied slots, free slots.
#[derive(Debug)]
pub struct Superblock {
    total_inodes: u16,
    used_inodes: u16,
    free_space: u16,
}

impl Superblock {
    /// Total number of slots (the table's capacity).
    pub closed spec fn spec_total(&self) -> u16 {
        self.total_inodes
    }

    /// Number of occupied slots.
    pub closed spec fn spec_used(&self) -> u16 {
        self.used_inodes
    }

    /// Number of free slots.
    pub closed spec fn spec_free(&self) -> u16 {
        self.free_space
    }

    /// The counters balance: occupied plus free slots make up the capacity.
    pub open spec fn wf(&self) -> bool {
        self.spec_used() + self.spec_free() == self.spec_total()
    }

    /// Fresh counters for an empty table of `MAX_FILES` slots.
    pub fn new() -> (r: Superblock)
        ensures
            r.wf(),
            r.spec_total() == MAX_FILES as u16,
            r.spec_used() == 0,
            r.spec_free() == MAX_FILES as u16,
    {
        Superblock {
            total_inodes: MAX_FILES as u16,
            used_inodes: 0,
            free_space: MAX_FILES as u16,
        }
    }

    /// The capacity.
    pub fn total_inodes(&self) -> (r: u16)
        ensures
            r == self.spec_total(),
    {
        self.total_inodes
    }

    /// The occupied count.
    pub fn used_inodes(&self) -> (r: u16)
        ensures
            r == self.spec_used(),
    {
        self.used_inodes
    }

    /// The free count.
    pub fn free_space(&self) -> (r: u16)
        ensures
            r == self.spec_free(),
    {
        self.free_space
    }

    /// Bookkeeping for a successful create: one more occupied, one less free.
    pub(crate) fn increment_used(&mut self)
        requires
            old(self).wf(),
            old(self).spec_used() < old(self).spec_total(),
        ensures
            final(self).wf(),
            final(self).spec_total() == old(self).spec_total(),
            final(self).spec_used() == old(self).spec_used() + 1,
            final(self).spec_free() == old(self).spec_free() - 1,
    {
        self.used_inodes = self.used_inodes + 1;
        self.free_space = self.free_space - 1;
    }

    /// Bookkeeping for a successful delete: one less occupied, one more free.
    pub(crate) fn decrement_used(&mut self)
        requires
            old(self).wf(),
            old(self).spec_used() > 0,
        ensures
            final(self).wf(),
            final(self).spec_total() == old(self).spec_total(),
            final(self).spec_used() == old(self).spec_used() - 1,
            final(self).spec_free() == old(self).spec_free() + 1,
    {
        self.used_inodes = self.used_inodes - 1;
        self.free_space = self.free_space + 1;
    }
}

} // verus!
