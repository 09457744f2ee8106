//! The asset copier's plan: given the entries of a static-asset tree
//! (relative paths, directories flagged), it says exactly which
//! directories to create under the destination and which files to copy
//! where. Walking the tree and performing the copies is the caller's
//! I/O; the plan fixes every destination path.

use vstd::prelude::*;
use crate::paths::joined_path;
use crate::paths::join_path;

verus! {

/// One entry of the source tree, relative to the tree's root.
pub struct TreeEntry {
    /// The entry's path relative to the source root, with `/` between
    /// components, e.g. `sub/b.txt`.
    pub rel: String,
    /// Whether the entry is a directory (to be created) rather than a
    /// file (to be copied).
    pub is_dir: bool,
}

/// One step of mirroring the tree into the destination.
pub enum CopyAction {
    /// Create this directory, intermediate directories included.
    MakeDir(String),
    /// Copy the file at the first path verbatim to the second.
    CopyFile(String, String),
}

/// Whether `action` mirrors `entry` from `src` into `dst`: a directory
/// becomes a same-named directory under `dst`; a file is copied from
/// `<src>/<rel>` to `<dst>/<rel>`.
pub open spec fn mirrors(
    action: CopyAction,
    entry: TreeEntry,
    src: Seq<char>,
    dst: Seq<char>,
) -> bool {
    if entry.is_dir {
        action matches CopyAction::MakeDir(p) && p@ == joined_path(dst, entry.rel@)
    } else {
        action matches CopyAction::CopyFile(f, t) && f@ == joined_path(src, entry.rel@) && t@
            == joined_path(dst, entry.rel@)
    }
}

/// Plans the mirroring of a source tree into `dst`: first create `dst`
/// itself, then, entry by entry in the given order, create each
/// directory under `dst` and copy each file to its same-named place
/// under `dst`.
pub fn copy_plan(entries: &Vec<TreeEntry>, src: &str, dst: &str) -> (plan: Vec<CopyAction>)
    ensures
        plan@.len() == entries@.len() + 1,
        plan@[0] matches CopyAction::MakeDir(p) && p@ == dst@,
        forall|i: int|
            0 <= i < entries@.len() ==> mirrors(#[trigger] plan@[i + 1], entries@[i], src@, dst@),
{
    let mut plan: Vec<CopyAction> = Vec::new();
    plan.push(CopyAction::MakeDir(String::from_str(dst)));
    let n = entries.len();
    let mut i: usize = 0;
    while i < n
        invariant
            n == entries@.len(),
            i <= n,
            plan@.len() == i + 1,
            plan@[0] matches CopyAction::MakeDir(p) && p@ == dst@,
            forall|j: int|
                0 <= j < i ==> mirrors(#[trigger] plan@[j + 1], entries@[j], src@, dst@),
        decreases n - i,
    {
        let entry = &entries[i];
        if entry.is_dir {
            plan.push(CopyAction::MakeDir(join_path(dst, entry.rel.as_str())));
        } else {
            plan.push(
                CopyAction::CopyFile(
                    join_path(src, entry.rel.as_str()),
                    join_path(dst, entry.rel.as_str()),
                ),
            );
        }
        i = i + 1;
    }
    plan
}

} // verus!
