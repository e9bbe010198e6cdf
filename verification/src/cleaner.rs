//! The deletion guard. A purge target may be removed only if its
//! canonical path is a descendant of the canonical project root; a
//! target outside the root aborts the run before any filesystem
//! mutation. Paths arrive already canonicalized, split into components.

use vstd::prelude::*;
use crate::text::strings_view;

verus! {

/// What the cleaner does with one purge target.
#[derive(Clone, Copy, PartialEq, Eq, Debug)]
pub enum CleanDecision {
    /// The target does not exist: nothing to do.
    Skip,
    /// The target lies under the project root: remove the file, or the
    /// directory recursively.
    Remove,
    /// The target escapes the project root: abort the run, touching
    /// nothing.
    Refuse,
}

/// Whether the path whose canonical components are `path` lies under
/// (or is) the directory whose canonical components are `root`.
pub open spec fn spec_is_descendant(path: Seq<Seq<char>>, root: Seq<Seq<char>>) -> bool {
    root.is_prefix_of(path)
}

/// Decides whether `path` is a descendant of `root`, both given as the
/// components of already-canonicalized paths.
pub fn is_descendant(path: &Vec<String>, root: &Vec<String>) -> (r: bool)
    ensures
        r == spec_is_descendant(strings_view(path@), strings_view(root@)),
{
    if root.len() > path.len() {
        assert(!strings_view(root@).is_prefix_of(strings_view(path@)));
        return false;
    }
    let n: usize = root.len();
    let mut i: usize = 0;
    while i < n
        invariant
            n == root@.len() <= path@.len(),
            i <= n,
            forall|k: int| 0 <= k < i ==> root@[k]@ == path@[k]@,
        decreases n - i,
    {
        if !root[i].eq(&path[i]) {
            assert(strings_view(root@)[i as int] != strings_view(path@)[i as int]);
            assert(!strings_view(root@).is_prefix_of(strings_view(path@)));
            return false;
        }
        i = i + 1;
    }
    assert(strings_view(root@).is_prefix_of(strings_view(path@))) by {
        assert(strings_view(root@) =~= strings_view(path@).subrange(0, n as int));
    }
    true
}

/// The decision the cleaner must take for one target: skip what does
/// not exist, remove a verified descendant of the root, refuse anything
/// else.
pub open spec fn spec_clean_decision(
    target_exists: bool,
    path: Seq<Seq<char>>,
    root: Seq<Seq<char>>,
) -> CleanDecision {
    if !target_exists {
        CleanDecision::Skip
    } else if spec_is_descendant(path, root) {
        CleanDecision::Remove
    } else {
        CleanDecision::Refuse
    }
}

/// Decides what to do with one purge target. `target_exists` is whether
/// the target was found on disk; `path` and `root` are the canonical
/// components of the target and of the project root.
pub fn clean_decision(target_exists: bool, path: &Vec<String>, root: &Vec<String>) -> (d:
    CleanDecision)
    ensures
        d == spec_clean_decision(target_exists, strings_view(path@), strings_view(root@)),
{
    if !target_exists {
        CleanDecision::Skip
    } else if is_descendant(path, root) {
        CleanDecision::Remove
    } else {
        CleanDecision::Refuse
    }
}

/// Path safety: a target outside the canonical project root is never
/// removed - the cleaner either skips it (it does not exist) or refuses
/// and aborts, mutating nothing.
pub proof fn lemma_outside_root_never_removed(
    target_exists: bool,
    path: Seq<Seq<char>>,
    root: Seq<Seq<char>>,
)
    requires
        !spec_is_descendant(path, root),
    ensures
        spec_clean_decision(target_exists, path, root) != CleanDecision::Remove,
{
}

} // verus!
