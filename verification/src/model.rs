//! A ghost model of the filesystem, and proofs of what the two operations do
//! to it.
//!
//! The model is a map from absolute, already-resolved paths — each a sequence
//! of name segments, the empty sequence standing for the root — to the kind
//! of entry that lives there. An unverified shell performs the real system
//! calls; the spec functions here state what a fault-free run of each
//! operation's decision protocol does to a filesystem in this model:
//!
//! - the metadata probe of [`crate::removal::plan_removal`] reports that a
//!   path exists exactly when the model contains it, so a run of the removal
//!   protocol skips an absent path and otherwise deletes the subtree
//!   ([`removal_run`]);
//! - resolution reports the canonical form of the path exactly when the model
//!   contains that form, and creation adds the missing ancestors as
//!   directories exactly when no existing ancestor is a non-directory, so a
//!   run of the canonicalization protocol of [`crate::canonical`] is
//!   [`canonical_run`]. A run that fails (creation was needed and impossible)
//!   is `None`: the model does not track the partial effects of a failed
//!   creation.
//!
//! The lemmas at the end prove the removal idempotent and complete, and the
//! canonicalization creating and stable.

use vstd::prelude::*;

verus! {

/// An absolute, resolved path in the model: its name segments from the root.
pub type PathSegs = Seq<Seq<char>>;

/// The kind of entry a path designates in the model.
#[derive(Clone, Copy, Debug, PartialEq, Eq, Structural)]
pub enum NodeKind {
    /// A directory.
    Directory,
    /// Anything else a path can designate (a file, a symlink, ...).
    File,
}

/// A filesystem in the model: which paths exist, and what kind of entry each
/// one is.
pub type FsModel = Map<PathSegs, NodeKind>;

/// `p` is `q` itself or an ancestor of `q`.
pub open spec fn is_prefix(p: PathSegs, q: PathSegs) -> bool {
    p.len() <= q.len() && q.subrange(0, p.len() as int) == p
}

/// The filesystem after deleting `p` together with everything under it:
/// every path that is `p` or below it is gone, everything else is untouched.
pub open spec fn subtree_removed(fs: FsModel, p: PathSegs) -> FsModel {
    Map::new(|q: PathSegs| fs.dom().contains(q) && !is_prefix(p, q), |q: PathSegs| fs[q])
}

/// The filesystem after a fault-free run of the removal protocol on `p`:
/// the probe finds `p` exactly when the model contains it, so an absent `p`
/// is left alone and a present one loses its whole subtree. Either way the
/// run succeeds.
pub open spec fn removal_run(fs: FsModel, p: PathSegs) -> FsModel {
    if fs.dom().contains(p) {
        subtree_removed(fs, p)
    } else {
        fs
    }
}

/// The directory `p` and its missing ancestors can be created: no ancestor
/// of `p` (nor `p` itself) already exists as something other than a
/// directory.
pub open spec fn can_create_dirs(fs: FsModel, p: PathSegs) -> bool {
    forall|q: PathSegs| is_prefix(q, p) && #[trigger] fs.dom().contains(q) ==> fs[q]
        == NodeKind::Directory
}

/// The filesystem after creating the directory `p` together with its missing
/// ancestors: `p` and every ancestor now exist, the missing ones as fresh
/// directories, and every path that already existed is untouched.
pub open spec fn dirs_created(fs: FsModel, p: PathSegs) -> FsModel {
    Map::new(
        |q: PathSegs| fs.dom().contains(q) || is_prefix(q, p),
        |q: PathSegs|
            if fs.dom().contains(q) {
                fs[q]
            } else {
                NodeKind::Directory
            },
    )
}

/// A fault-free run of the canonicalization protocol on a path whose
/// canonical form is `target`: resolution succeeds exactly when the model
/// contains `target`, and a failed resolution falls back to creating the
/// directory, after which the retried resolution finds what was created.
///
/// The run returns the canonical path and the filesystem it leaves behind,
/// or `None` when the creation itself was impossible (the partial effects of
/// a failed creation are not modelled).
pub open spec fn canonical_run(fs: FsModel, target: PathSegs) -> Option<(PathSegs, FsModel)> {
    if fs.dom().contains(target) {
        Some((target, fs))
    } else if can_create_dirs(fs, target) {
        Some((target, dirs_created(fs, target)))
    } else {
        None
    }
}

/// Every path is a prefix of itself.
pub proof fn lemma_prefix_reflexive(p: PathSegs)
    ensures
        is_prefix(p, p),
{
    assert(p.subrange(0, p.len() as int) =~= p);
}

/// Removal is idempotent: a fault-free run of the removal protocol always
/// succeeds, leaves the path absent — so a second run on the same path takes
/// the nothing-to-do branch and succeeds as well — and the second run leaves
/// the filesystem exactly as the first one left it.
pub proof fn lemma_removal_idempotent(fs: FsModel, p: PathSegs)
    ensures
        !removal_run(fs, p).dom().contains(p),
        removal_run(removal_run(fs, p), p) == removal_run(fs, p),
{
    lemma_prefix_reflexive(p);
}

/// Removal is complete: after a fault-free run of the removal protocol on an
/// existing path, neither the path itself nor anything below it remains —
/// and nothing outside the path's subtree is touched.
pub proof fn lemma_removal_complete(fs: FsModel, p: PathSegs)
    requires
        fs.dom().contains(p),
    ensures
        !removal_run(fs, p).dom().contains(p),
        forall|q: PathSegs| is_prefix(p, q) ==> !(#[trigger] removal_run(fs, p).dom().contains(q)),
        forall|q: PathSegs|
            #[trigger] fs.dom().contains(q) && !is_prefix(p, q) ==> removal_run(
                fs,
                p,
            ).dom().contains(q) && removal_run(fs, p)[q] == fs[q],
{
    lemma_prefix_reflexive(p);
}

/// Canonicalization creates: a fault-free run of the canonicalization
/// protocol on a path whose canonical form `target` does not yet exist — and
/// can be created — succeeds, returns `target` itself (an absolute, resolved
/// path), leaves `target` and every ancestor of it existing as directories,
/// and touches nothing that already existed.
pub proof fn lemma_canonicalize_creates(fs: FsModel, target: PathSegs)
    requires
        !fs.dom().contains(target),
        can_create_dirs(fs, target),
    ensures
        canonical_run(fs, target) matches Some(r) && r.0 == target,
        canonical_run(fs, target) matches Some(r) ==> forall|q: PathSegs|
            is_prefix(q, target) ==> #[trigger] r.1.dom().contains(q) && r.1[q]
                == NodeKind::Directory,
        canonical_run(fs, target) matches Some(r) ==> forall|q: PathSegs|
            #[trigger] fs.dom().contains(q) ==> r.1.dom().contains(q) && r.1[q] == fs[q],
{
    let fs2 = dirs_created(fs, target);
    assert forall|q: PathSegs| is_prefix(q, target) implies #[trigger] fs2.dom().contains(q)
        && fs2[q] == NodeKind::Directory by {
        if fs.dom().contains(q) {
            assert(fs[q] == NodeKind::Directory);
        }
    }
}

/// Canonicalization is stable: when the canonical form `target` of a path
/// already exists, a fault-free run of the canonicalization protocol returns
/// `target` and changes nothing, and a second run straight after returns the
/// identical path and again changes nothing.
pub proof fn lemma_canonicalize_stable(fs: FsModel, target: PathSegs)
    requires
        fs.dom().contains(target),
    ensures
        canonical_run(fs, target) == Some((target, fs)),
        canonical_run(fs, target) matches Some(r) ==> canonical_run(r.1, target) == Some(
            (target, r.1),
        ),
{
}

} // verus!
