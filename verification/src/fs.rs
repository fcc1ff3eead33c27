//! The file system table: a superblock of counters and a fixed array of
//! inodes, with create, read, and delete over fixed-size filename and
//! content buffers.
//!
//! Allocation is first-fit by ascending index; lookup and delete act on the
//! lowest-index occupied inode whose filename buffer matches byte for byte,
//! trailing zero padding included. Deleting a slot clears its name as well
//! as its content, leaving it fully empty for reuse.

use vstd::prelude::*;

use crate::CONTENT_LENGTH;
use crate::EfsError;
use crate::FILENAME_LENGTH;
use crate::MAX_FILES;
use crate::inode::INode;
use crate::pad_zero;
use crate::superblock::Superblock;

verus! {

/// Number of occupied inodes in `s`.
pub open spec fn count_used(s: Seq<INode>) -> int
    decreases s.len(),
{
    if s.len() == 0 {
        0
    } else {
        count_used(s.drop_last()) + (if s.last().spec_is_used() {
            1int
        } else {
            0int
        })
    }
}

/// Inode `i` of `s` is occupied and its filename buffer equals `name`
/// exactly, padding included.
pub open spec fn matches_at(s: Seq<INode>, name: Seq<u8>, i: int) -> bool {
    &&& s[i].spec_is_used()
    &&& s[i].spec_filename() == name
}

/// Some occupied inode of `s` is named `name`.
pub open spec fn has_match(s: Seq<INode>, name: Seq<u8>) -> bool {
    exists|i: int| 0 <= i < s.len() && matches_at(s, name, i)
}

/// Inode `i` is the lowest-index occupied inode of `s` named `name`.
pub open spec fn is_first_match(s: Seq<INode>, name: Seq<u8>, i: int) -> bool {
    &&& 0 <= i < s.len()
    &&& matches_at(s, name, i)
    &&& forall|j: int| 0 <= j < i ==> !matches_at(s, name, j)
}

/// Inode `i` is the lowest-index free inode of `s`.
pub open spec fn is_first_free(s: Seq<INode>, i: int) -> bool {
    &&& 0 <= i < s.len()
    &&& !s[i].spec_is_used()
    &&& forall|j: int| 0 <= j < i ==> (#[trigger] s[j]).spec_is_used()
}

/// The table: the only entity with a lifecycle visible to callers. It owns
/// exactly `MAX_FILES` inodes and the superblock summarizing them.
pub struct FileSystem {
    superblock: Superblock,
    inodes: Vec<INode>,
}

impl FileSystem {
    /// The superblock counters.
    pub closed spec fn spec_superblock(&self) -> Superblock {
        self.superblock
    }

    /// The inode slots, in index order.
    pub closed spec fn spec_inodes(&self) -> Seq<INode> {
        self.inodes@
    }

    /// The occupied count, as the superblock reports it.
    pub open spec fn spec_used(&self) -> u16 {
        self.spec_superblock().spec_used()
    }

    /// The table invariant, preserved by every operation: there are exactly
    /// `MAX_FILES` well-formed slots, the occupied and free counters sum to
    /// the capacity, and the occupied counter equals the number of occupied
    /// slots.
    pub open spec fn wf(&self) -> bool {
        &&& self.spec_inodes().len() == MAX_FILES
        &&& forall|i: int|
            0 <= i < self.spec_inodes().len() ==> (#[trigger] self.spec_inodes()[i]).wf()
        &&& self.spec_superblock().wf()
        &&& self.spec_superblock().spec_total() == MAX_FILES as u16
        &&& self.spec_superblock().spec_used() as int == count_used(self.spec_inodes())
    }

    /// A fresh table: every slot empty, counters at zero occupied.
    pub fn new() -> (r: FileSystem)
        ensures
            r.wf(),
            r.spec_superblock().spec_used() == 0,
            r.spec_superblock().spec_free() == MAX_FILES as u16,
            forall|i: int|
                0 <= i < r.spec_inodes().len() ==> (#[trigger] r.spec_inodes()[i]).is_empty(),
    {
        let superblock = Superblock::new();
        let mut inodes: Vec<INode> = Vec::new();
        let mut i: usize = 0;
        while i < MAX_FILES
            invariant
                i == inodes@.len(),
                i <= MAX_FILES,
                forall|j: int| 0 <= j < i ==> (#[trigger] inodes@[j]).wf(),
                forall|j: int| 0 <= j < i ==> (#[trigger] inodes@[j]).is_empty(),
            decreases MAX_FILES - i,
        {
            inodes.push(INode::new());
            i = i + 1;
        }
        proof {
            lemma_count_used_none(inodes@);
        }
        FileSystem { superblock, inodes }
    }

    /// A read-only snapshot of the superblock counters.
    pub fn get_info(&self) -> (r: &Superblock)
        ensures
            *r == self.spec_superblock(),
    {
        &self.superblock
    }

    /// The lowest-index free slot, if any slot is free.
    fn find_first_free(&self) -> (r: Option<usize>)
        requires
            self.spec_inodes().len() == MAX_FILES,
        ensures
            match r {
                Some(i) => is_first_free(self.spec_inodes(), i as int),
                None => forall|j: int|
                    0 <= j < self.spec_inodes().len() ==> (#[trigger] self.spec_inodes()[j]).spec_is_used(),
            },
    {
        let mut i: usize = 0;
        while i < MAX_FILES
            invariant
                i <= MAX_FILES,
                self.spec_inodes().len() == MAX_FILES,
                forall|j: int| 0 <= j < i ==> (#[trigger] self.spec_inodes()[j]).spec_is_used(),
            decreases MAX_FILES - i,
        {
            if !self.inodes[i].is_used() {
                return Some(i);
            }
            i = i + 1;
        }
        None
    }

    /// The lowest-index occupied slot named `filename`, if one exists.
    fn find_first_match(&self, filename: &Vec<u8>) -> (r: Option<usize>)
        requires
            self.spec_inodes().len() == MAX_FILES,
        ensures
            match r {
                Some(i) => is_first_match(self.spec_inodes(), filename@, i as int),
                None => !has_match(self.spec_inodes(), filename@),
            },
    {
        let mut i: usize = 0;
        while i < MAX_FILES
            invariant
                i <= MAX_FILES,
                self.spec_inodes().len() == MAX_FILES,
                forall|j: int| 0 <= j < i ==> !matches_at(self.spec_inodes(), filename@, j),
            decreases MAX_FILES - i,
        {
            let node = &self.inodes[i];
            if node.is_used() && bytes_eq(node.filename(), filename) {
                return Some(i);
            }
            proof {
                assert(!matches_at(self.spec_inodes(), filename@, i as int));
            }
            i = i + 1;
        }
        None
    }

    /// Create: occupy the lowest-index free slot with the given fixed-size
    /// buffers and raise the occupied count by one. Refused, with the table
    /// unchanged, exactly when every slot is occupied. Duplicate names are
    /// accepted: no uniqueness check is made.
    pub fn add_file(&mut self, filename: &Vec<u8>, content: &Vec<u8>) -> (r: Result<
        (),
        EfsError,
    >)
        requires
            old(self).wf(),
            filename@.len() == FILENAME_LENGTH,
            content@.len() == CONTENT_LENGTH,
        ensures
            final(self).wf(),
            match r {
                Ok(()) => {
                    &&& old(self).spec_used() < MAX_FILES as u16
                    &&& final(self).spec_superblock().spec_total() == old(self).spec_superblock().spec_total()
                    &&& final(self).spec_used() == old(self).spec_used() + 1
                    &&& final(self).spec_superblock().spec_free() == old(self).spec_superblock().spec_free() - 1
                    &&& exists|i: int|
                        {
                            &&& #[trigger] is_first_free(old(self).spec_inodes(), i)
                            &&& final(self).spec_inodes()[i].spec_is_used()
                            &&& final(self).spec_inodes()[i].spec_filename() == filename@
                            &&& final(self).spec_inodes()[i].spec_content() == content@
                            &&& final(self).spec_inodes() == old(self).spec_inodes().update(
                                i,
                                final(self).spec_inodes()[i],
                            )
                        }
                },
                Err(e) => {
                    &&& e == EfsError::CapacityExhausted
                    &&& old(self).spec_used() == MAX_FILES as u16
                    &&& *final(self) == *old(self)
                },
            },
    {
        if self.superblock.used_inodes() >= MAX_FILES as u16 {
            proof {
                lemma_count_used_bound(self.spec_inodes());
            }
            return Err(EfsError::CapacityExhausted);
        }
        match self.find_first_free() {
            None => {
                proof {
                    lemma_count_used_all(self.spec_inodes());
                }
                vstd::pervasive::unreached()
            },
            Some(i) => {
                let node = INode::occupied(copy_bytes(filename), copy_bytes(content));
                proof {
                    lemma_count_used_update(self.spec_inodes(), i as int, node);
                }
                let ghost pre = self.spec_inodes();
                self.inodes.set(i, node);
                self.superblock.increment_used();
                proof {
                    assert(is_first_free(pre, i as int));
                    assert(self.spec_inodes() == pre.update(i as int, self.spec_inodes()[i as int]));
                }
                Ok(())
            },
        }
    }

    /// Read: a copy of the content buffer of the lowest-index occupied slot
    /// named `filename`. Refused exactly when no occupied slot matches; the
    /// table is never changed.
    pub fn read_file(&self, filename: &Vec<u8>) -> (r: Result<Vec<u8>, EfsError>)
        requires
            self.wf(),
            filename@.len() == FILENAME_LENGTH,
        ensures
            match r {
                Ok(c) => exists|i: int|
                    #[trigger] is_first_match(self.spec_inodes(), filename@, i) && c@
                        == self.spec_inodes()[i].spec_content(),
                Err(e) => {
                    &&& e == EfsError::NotFound
                    &&& !has_match(self.spec_inodes(), filename@)
                },
            },
    {
        match self.find_first_match(filename) {
            None => Err(EfsError::NotFound),
            Some(i) => Ok(copy_bytes(self.inodes[i].content())),
        }
    }

    /// Delete: clear the lowest-index occupied slot named `filename` — its
    /// content and its name both zeroed, its occupancy flag dropped — and
    /// lower the occupied count by one. Refused, with the table unchanged,
    /// exactly when no occupied slot matches. With duplicate names only the
    /// lowest-index match is cleared.
    pub fn delete_file(&mut self, filename: &Vec<u8>) -> (r: Result<(), EfsError>)
        requires
            old(self).wf(),
            filename@.len() == FILENAME_LENGTH,
        ensures
            final(self).wf(),
            match r {
                Ok(()) => {
                    &&& old(self).spec_used() > 0
                    &&& final(self).spec_superblock().spec_total() == old(self).spec_superblock().spec_total()
                    &&& final(self).spec_used() == old(self).spec_used() - 1
                    &&& final(self).spec_superblock().spec_free() == old(self).spec_superblock().spec_free() + 1
                    &&& exists|i: int|
                        {
                            &&& #[trigger] is_first_match(old(self).spec_inodes(), filename@, i)
                            &&& final(self).spec_inodes()[i].is_empty()
                            &&& final(self).spec_inodes() == old(self).spec_inodes().update(
                                i,
                                final(self).spec_inodes()[i],
                            )
                        }
                },
                Err(e) => {
                    &&& e == EfsError::NotFound
                    &&& !has_match(old(self).spec_inodes(), filename@)
                    &&& *final(self) == *old(self)
                },
            },
    {
        match self.find_first_match(filename) {
            None => Err(EfsError::NotFound),
            Some(i) => {
                let node = INode::new();
                proof {
                    lemma_count_used_update(self.spec_inodes(), i as int, node);
                    lemma_count_used_bound(self.spec_inodes().update(i as int, node));
                }
                let ghost pre = self.spec_inodes();
                self.inodes.set(i, node);
                self.superblock.decrement_used();
                proof {
                    assert(is_first_match(pre, filename@, i as int));
                    assert(self.spec_inodes() == pre.update(i as int, self.spec_inodes()[i as int]));
                }
                Ok(())
            },
        }
    }
}

/// Encode a logical name into the fixed filename buffer: the name's bytes
/// followed by zero padding. A name longer than the buffer is rejected, not
/// truncated.
pub fn make_filename_bytes(filename: &Vec<u8>) -> (r: Result<Vec<u8>, EfsError>)
    ensures
        match r {
            Ok(b) => {
                &&& filename@.len() <= FILENAME_LENGTH
                &&& b@ == pad_zero(filename@, FILENAME_LENGTH as nat)
                &&& b@.len() == FILENAME_LENGTH
            },
            Err(e) => {
                &&& e == EfsError::ValueTooLarge
                &&& filename@.len() > FILENAME_LENGTH
            },
        },
{
    pad_to(filename, FILENAME_LENGTH)
}

/// Encode logical content into the fixed content buffer: the content's bytes
/// followed by zero padding. Content longer than the buffer is rejected, not
/// truncated.
pub fn make_content_bytes(content: &Vec<u8>) -> (r: Result<Vec<u8>, EfsError>)
    ensures
        match r {
            Ok(b) => {
                &&& content@.len() <= CONTENT_LENGTH
                &&& b@ == pad_zero(content@, CONTENT_LENGTH as nat)
                &&& b@.len() == CONTENT_LENGTH
            },
            Err(e) => {
                &&& e == EfsError::ValueTooLarge
                &&& content@.len() > CONTENT_LENGTH
            },
        },
{
    pad_to(content, CONTENT_LENGTH)
}

/// `src` copied into a fresh buffer of exactly `n` bytes, zero-padded, or
/// `ValueTooLarge` when `src` does not fit.
fn pad_to(src: &Vec<u8>, n: usize) -> (r: Result<Vec<u8>, EfsError>)
    ensures
        match r {
            Ok(b) => {
                &&& src@.len() <= n
                &&& b@ == pad_zero(src@, n as nat)
                &&& b@.len() == n
            },
            Err(e) => {
                &&& e == EfsError::ValueTooLarge
                &&& src@.len() > n
            },
        },
{
    if src.len() > n {
        return Err(EfsError::ValueTooLarge);
    }
    let mut b = copy_bytes(src);
    while b.len() < n
        invariant
            src@.len() <= b@.len() <= n,
            b@ == pad_zero(src@, b@.len() as nat),
        decreases n - b.len(),
    {
        b.push(0u8);
        proof {
            assert(b@ =~= pad_zero(src@, b@.len() as nat));
        }
    }
    Ok(b)
}

/// A fresh vector holding the same bytes as `src`.
fn copy_bytes(src: &Vec<u8>) -> (r: Vec<u8>)
    ensures
        r@ == src@,
{
    let mut r: Vec<u8> = Vec::new();
    let mut i: usize = 0;
    while i < src.len()
        invariant
            i <= src@.len(),
            r@ == src@.take(i as int),
        decreases src@.len() - i,
    {
        r.push(src[i]);
        i = i + 1;
        proof {
            assert(r@ =~= src@.take(i as int));
        }
    }
    proof {
        assert(src@.take(src@.len() as int) =~= src@);
    }
    r
}

/// Byte-for-byte equality of two buffers.
fn bytes_eq(a: &Vec<u8>, b: &Vec<u8>) -> (r: bool)
    ensures
        r == (a@ == b@),
{
    if a.len() != b.len() {
        proof {
            assert(a@ != b@);
        }
        return false;
    }
    let mut i: usize = 0;
    while i < a.len()
        invariant
            i <= a@.len(),
            a@.len() == b@.len(),
            forall|j: int| 0 <= j < i ==> a@[j] == b@[j],
        decreases a@.len() - i,
    {
        if a[i] != b[i] {
            proof {
                assert(a@ != b@);
            }
            return false;
        }
        i = i + 1;
    }
    proof {
        assert(a@ =~= b@);
    }
    true
}

/// A sequence with no occupied inode has occupied count zero.
proof fn lemma_count_used_none(s: Seq<INode>)
    requires
        forall|i: int| 0 <= i < s.len() ==> !(#[trigger] s[i]).spec_is_used(),
    ensures
        count_used(s) == 0,
    decreases s.len(),
{
    if s.len() > 0 {
        lemma_count_used_none(s.drop_last());
    }
}

/// A sequence with every inode occupied has occupied count `len`.
proof fn lemma_count_used_all(s: Seq<INode>)
    requires
        forall|i: int| 0 <= i < s.len() ==> (#[trigger] s[i]).spec_is_used(),
    ensures
        count_used(s) == s.len(),
    decreases s.len(),
{
    if s.len() > 0 {
        lemma_count_used_all(s.drop_last());
    }
}

/// Replacing one inode changes the occupied count by the difference of the
/// two slots' occupancy.
proof fn lemma_count_used_update(s: Seq<INode>, i: int, v: INode)
    requires
        0 <= i < s.len(),
    ensures
        count_used(s.update(i, v)) == count_used(s) - (if s[i].spec_is_used() {
            1int
        } else {
            0int
        }) + (if v.spec_is_used() {
            1int
        } else {
            0int
        }),
    decreases s.len(),
{
    let t = s.update(i, v);
    if i == s.len() - 1 {
        assert(t.drop_last() =~= s.drop_last());
    } else {
        lemma_count_used_update(s.drop_last(), i, v);
        assert(t.drop_last() =~= s.drop_last().update(i, v));
        assert(t.last() == s.last());
    }
}

/// Every sequence of inodes has between zero and `len` occupied slots.
pub proof fn lemma_count_used_bound(s: Seq<INode>)
    ensures
        0 <= count_used(s) <= s.len(),
    decreases s.len(),
{
    if s.len() > 0 {
        lemma_count_used_bound(s.drop_last());
    }
}

} // verus!
