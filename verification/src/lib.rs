//! An in-memory model of a filesystem's metadata layer: a fixed-capacity
//! table of inode records summarized by a superblock of counters, with
//! create, read, and delete of named byte blobs. Nothing touches a disk;
//! the table is the whole store.

use vstd::prelude::*;

pub mod fs;
pub mod inode;
pub mod laws;
pub mod superblock;

verus! {

/// Number of inode slots in a file system table.
pub const MAX_FILES: usize = 32;

/// Size in bytes of every inode's filename buffer.
pub const FILENAME_LENGTH: usize = 32;

/// Size in bytes of every inode's content buffer.
pub const CONTENT_LENGTH: usize = 1024;

/// The failures the table can report. Every failure leaves the table
/// unchanged; none is fatal to it.
#[derive(Debug, Clone, Copy, PartialEq, Eq, Structural)]
pub enum EfsError {
    /// A create found every inode occupied.
    CapacityExhausted,
    /// A read or delete matched no occupied inode.
    NotFound,
    /// A logical name or content does not fit its fixed buffer.
    ValueTooLarge,
}

/// A run of `n` zero bytes.
pub open spec fn zero_bytes(n: nat) -> Seq<u8> {
    Seq::new(n, |i: int| 0u8)
}

/// `s` followed by zero bytes up to length `n`; meaningful when `s` fits.
pub open spec fn pad_zero(s: Seq<u8>, n: nat) -> Seq<u8> {
    s + zero_bytes((n - s.len()) as nat)
}

} // verus!
