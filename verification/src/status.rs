//! The status of a file as the backend reports it: a set of flags, each a
//! bit of a number.

use vstd::prelude::*;

verus! {

/// The file is new in the index.
pub const INDEX_NEW: u32 = 0x1;

/// The file is modified in the index.
pub const INDEX_MODIFIED: u32 = 0x2;

/// The file is deleted in the index.
pub const INDEX_DELETED: u32 = 0x4;

/// The file is renamed in the index.
pub const INDEX_RENAMED: u32 = 0x8;

/// The file's type is changed in the index.
pub const INDEX_TYPECHANGE: u32 = 0x10;

/// The file is new in the working tree.
pub const WT_NEW: u32 = 0x80;

/// The file is modified in the working tree.
pub const WT_MODIFIED: u32 = 0x100;

/// The file is deleted in the working tree.
pub const WT_DELETED: u32 = 0x200;

/// Whether a status holds a flag.
pub open spec fn has_flag(status: u32, flag: u32) -> bool {
    status & flag == flag
}

/// Whether a status says that the index holds a change of the file: that it
/// is new, modified, deleted or renamed there, or of another type.
pub open spec fn staged(status: u32) -> bool {
    has_flag(status, INDEX_RENAMED) || has_flag(status, INDEX_MODIFIED) || has_flag(
        status,
        INDEX_NEW,
    ) || has_flag(status, INDEX_DELETED) || has_flag(status, INDEX_TYPECHANGE)
}

/// Whether a status says that the working tree holds a change of the file:
/// that it is modified, new or deleted there.
pub open spec fn changed_in_worktree(status: u32) -> bool {
    has_flag(status, WT_MODIFIED) || has_flag(status, WT_NEW) || has_flag(status, WT_DELETED)
}

/// Tells whether a status holds a flag.
pub fn status_has(status: u32, flag: u32) -> (has: bool)
    ensures
        has == has_flag(status, flag),
{
    status & flag == flag
}

/// Tells whether the index holds a change of the file.
pub fn is_staged(status: u32) -> (r: bool)
    ensures
        r == staged(status),
{
    status_has(status, INDEX_RENAMED) || status_has(status, INDEX_MODIFIED) || status_has(
        status,
        INDEX_NEW,
    ) || status_has(status, INDEX_DELETED) || status_has(status, INDEX_TYPECHANGE)
}

/// Tells whether the working tree holds a change of the file.
pub fn is_changed_in_worktree(status: u32) -> (r: bool)
    ensures
        r == changed_in_worktree(status),
{
    status_has(status, WT_MODIFIED) || status_has(status, WT_NEW) || status_has(status, WT_DELETED)
}

/// Tells whether the index holds a change of any of the files: whether
/// there is anything to commit.
pub fn has_indexed_files(statuses: &Vec<u32>) -> (r: bool)
    ensures
        r <==> exists|i: int| 0 <= i < statuses@.len() && staged(#[trigger] statuses@[i]),
{
    let mut i: usize = 0;
    while i < statuses.len()
        invariant
            i <= statuses@.len(),
            forall|j: int| 0 <= j < i ==> !staged(#[trigger] statuses@[j]),
        decreases statuses@.len() - i,
    {
        if is_staged(statuses[i]) {
            return true;
        }
        i = i + 1;
    }
    false
}

/// A change in the index is one of the five flags of the index, whatever
/// else the status holds.
pub proof fn lemma_staged_is_index_bits(status: u32)
    ensures
        staged(status) <==> status & 0x1f != 0,
{
    assert((status & 0x8 == 0x8 || status & 0x2 == 0x2 || status & 0x1 == 0x1 || status & 0x4
        == 0x4 || status & 0x10 == 0x10) <==> status & 0x1f != 0) by (bit_vector);
}

} // verus!
