//! A single fixed-size slot of the table: a filename buffer, a content
//! buffer, and an occupancy flag. Inodes are owned by the table and are
//! reached by callers only through it.

use vstd::prelude::*;

use crate::CONTENT_LENGTH;
use crate::FILENAME_LENGTH;
use crate::zero_bytes;

verus! {

/// One record slot. Both buffers always have their fixed sizes; the slot
/// itself is reused in place, never deallocated.
pub struct INode {
    filename: Vec<u8>,
    content: Vec<u8>,
    is_used: bool,
}

impl INode {
    /// The bytes of the fixed filename buffer.
    pub closed spec fn spec_filename(&self) -> Seq<u8> {
        self.filename@
    }

    /// The bytes of the fixed content buffer.
    pub closed spec fn spec_content(&self) -> Seq<u8> {
        self.content@
    }

    /// Whether the slot currently holds a file.
    pub closed spec fn spec_is_used(&self) -> bool {
        self.is_used
    }

    /// Well-formed: both buffers have their fixed sizes.
    pub open spec fn wf(&self) -> bool {
        &&& self.spec_filename().len() == FILENAME_LENGTH
        &&& self.spec_content().len() == CONTENT_LENGTH
    }

    /// Empty: unoccupied, with both buffers zero-filled.
    pub open spec fn is_empty(&self) -> bool {
        &&& self.spec_filename() == zero_bytes(FILENAME_LENGTH as nat)
        &&& self.spec_content() == zero_bytes(CONTENT_LENGTH as nat)
        &&& !self.spec_is_used()
    }

    /// A fresh, empty inode.
    pub fn new() -> (r: INode)
        ensures
            r.wf(),
            r.is_empty(),
    {
        INode {
            filename: zero_vec(FILENAME_LENGTH),
            content: zero_vec(CONTENT_LENGTH),
            is_used: false,
        }
    }

    /// An occupied inode holding the given fixed-size buffers.
    pub(crate) fn occupied(filename: Vec<u8>, content: Vec<u8>) -> (r: INode)
        requires
            filename@.len() == FILENAME_LENGTH,
            content@.len() == CONTENT_LENGTH,
        ensures
            r.wf(),
            r.spec_is_used(),
            r.spec_filename() == filename@,
            r.spec_content() == content@,
    {
        INode { filename, content, is_used: true }
    }

    /// The filename buffer.
    pub fn filename(&self) -> (r: &Vec<u8>)
        ensures
            r@ == self.spec_filename(),
    {
        &self.filename
    }

    /// The content buffer.
    pub fn content(&self) -> (r: &Vec<u8>)
        ensures
            r@ == self.spec_content(),
    {
        &self.content
    }

    /// The occupancy flag.
    pub fn is_used(&self) -> (r: bool)
        ensures
            r == self.spec_is_used(),
    {
        self.is_used
    }
}

/// A fresh vector of `n` zero bytes.
pub(crate) fn zero_vec(n: usize) -> (r: Vec<u8>)
    ensures
        r@ == zero_bytes(n as nat),
{
    let mut r: Vec<u8> = Vec::new();
    let mut i: usize = 0;
    while i < n
        invariant
            i <= n,
            r@ == zero_bytes(i as nat),
        decreases n - i,
    {
        r.push(0u8);
        i = i + 1;
        proof {
            assert(r@ =~= zero_bytes(i as nat));
        }
    }
    r
}

} // verus!
