//! Laws of the table as a whole: how create, read, and delete interact,
//! stated over the table's mathematical model and proved once for all
//! tables.

use vstd::prelude::*;

use crate::MAX_FILES;
use crate::fs::FileSystem;
use crate::fs::has_match;
use crate::fs::is_first_free;
use crate::fs::is_first_match;
use crate::fs::matches_at;
use crate::inode::INode;

verus! {

/// Capacity law: in a well-formed table whose every slot is occupied, no
/// free slot remains — the free count is zero, and a further create is
/// refused rather than scanned for.
pub proof fn lemma_capacity_exhausted(fs: FileSystem)
    requires
        fs.wf(),
        fs.spec_used() == MAX_FILES as u16,
    ensures
        fs.spec_superblock().spec_free() == 0,
{
}

/// Two lowest-index matches of the same name are the same slot: the result
/// of a successful read is uniquely determined.
pub proof fn lemma_first_match_unique(s: Seq<INode>, name: Seq<u8>, i: int, j: int)
    requires
        is_first_match(s, name, i),
        is_first_match(s, name, j),
    ensures
        i == j,
{
}

/// Round trip: storing an occupied inode named `name` in the first free
/// slot of a table holding no occupied inode of that name makes that slot
/// the unique lowest-index match of `name` — so a read of `name` returns
/// exactly the content just stored.
pub proof fn lemma_create_then_read(pre: Seq<INode>, rec: INode, name: Seq<u8>, i: int)
    requires
        is_first_free(pre, i),
        !has_match(pre, name),
        rec.spec_is_used(),
        rec.spec_filename() == name,
    ensures
        is_first_match(pre.update(i, rec), name, i),
        forall|j: int| is_first_match(pre.update(i, rec), name, j) ==> j == i,
{
    let post = pre.update(i, rec);
    assert forall|j: int| 0 <= j < i implies !matches_at(post, name, j) by {
        assert(post[j] == pre[j]);
        assert(!matches_at(pre, name, j));
    }
    assert forall|j: int| is_first_match(post, name, j) implies j == i by {
        lemma_first_match_unique(post, name, i, j);
    }
}

/// Delete then read: clearing the only occupied inode named `name` leaves a
/// table with no match for `name` — so a following read of `name` is
/// refused as not found.
pub proof fn lemma_delete_then_read(pre: Seq<INode>, rec: INode, name: Seq<u8>, i: int)
    requires
        is_first_match(pre, name, i),
        forall|j: int| i < j < pre.len() ==> !matches_at(pre, name, j),
        !rec.spec_is_used(),
    ensures
        !has_match(pre.update(i, rec), name),
{
    let post = pre.update(i, rec);
    assert forall|j: int| 0 <= j < post.len() implies !matches_at(post, name, j) by {
        if j != i {
            assert(post[j] == pre[j]);
            assert(!matches_at(pre, name, j));
        }
    }
}

/// Duplicate names: after the lowest-index inode named `name` is cleared,
/// the next occupied inode of that name, if any, becomes the lowest-index
/// match — so a following read of `name` returns its content instead.
pub proof fn lemma_delete_uncovers_duplicate(
    pre: Seq<INode>,
    rec: INode,
    name: Seq<u8>,
    i: int,
    k: int,
)
    requires
        is_first_match(pre, name, i),
        !rec.spec_is_used(),
        i < k < pre.len(),
        matches_at(pre, name, k),
        forall|j: int| i < j < k ==> !matches_at(pre, name, j),
    ensures
        is_first_match(pre.update(i, rec), name, k),
{
    let post = pre.update(i, rec);
    assert(post[k] == pre[k]);
    assert forall|j: int| 0 <= j < k implies !matches_at(post, name, j) by {
        if j != i {
            assert(post[j] == pre[j]);
            assert(!matches_at(pre, name, j));
        }
    }
}

/// Reuse: clearing a slot below which every slot is occupied makes it the
/// lowest-index free slot — the one a following create occupies, whatever
/// name that create carries.
pub proof fn lemma_reuse_freed_slot(pre: Seq<INode>, rec: INode, i: int)
    requires
        0 <= i < pre.len(),
        !rec.spec_is_used(),
        forall|j: int| 0 <= j < i ==> (#[trigger] pre[j]).spec_is_used(),
    ensures
        is_first_free(pre.update(i, rec), i),
{
    let post = pre.update(i, rec);
    assert forall|j: int| 0 <= j < i implies (#[trigger] post[j]).spec_is_used() by {
        assert(post[j] == pre[j]);
    }
}

} // verus!
