//! The decision logic of folder canonicalization with creation.
//!
//! Canonicalizing a folder proceeds in up to three steps, each driven by the
//! outcome of one system call that an unverified shell performs:
//!
//! 1. the shell attempts to resolve the path and reports a [`ResolveOutcome`];
//!    [`after_first_resolve`] either finishes with the resolved path or asks
//!    for the directory (and its missing ancestors) to be created — the cause
//!    of the first failure is deliberately not inspected, creation is always
//!    the fallback;
//! 2. [`after_create`] turns a failed creation into a directory-creation
//!    error on the path, and lets a successful creation go on to the retry;
//! 3. the shell resolves the path once more and [`after_second_resolve`]
//!    either finishes with the resolved path or reports the distinct
//!    resolve-after-create error, since a freshly created directory is
//!    expected to resolve.

use vstd::prelude::*;

use crate::errors::{FsError, FsOp};

verus! {

/// The outcome of asking the host to resolve a path to its canonical form.
#[derive(Debug)]
pub enum ResolveOutcome {
    /// Resolution succeeded; the canonical, absolute form of the path.
    Resolved(String),
    /// Resolution failed; the text of the system error.
    Failed(String),
}

/// What the canonicalization requires after the first resolution attempt.
#[derive(Debug)]
pub enum FirstResolveStep {
    /// The path resolved: canonicalization is finished with this result.
    Done(String),
    /// The path did not resolve: create the directory and every missing
    /// ancestor, then resolve again.
    CreateDirectories,
}

/// Decide what canonicalizing a folder requires after the first resolution
/// attempt on it.
///
/// A successful resolution finishes at once with the canonical path; a failed
/// one asks for the directory to be created, whatever the failure was.
pub fn after_first_resolve(outcome: ResolveOutcome) -> (step: FirstResolveStep)
    ensures
        outcome matches ResolveOutcome::Resolved(canonical) ==> step
            == FirstResolveStep::Done(canonical),
        outcome is Failed ==> step is CreateDirectories,
{
    match outcome {
        ResolveOutcome::Resolved(canonical) => FirstResolveStep::Done(canonical),
        ResolveOutcome::Failed(_) => FirstResolveStep::CreateDirectories,
    }
}

/// Turn the outcome of the directory creation that [`after_first_resolve`]
/// asked for into either permission to retry the resolution or the final
/// creation error.
///
/// `failure` is `None` when the creation succeeded, and otherwise carries the
/// text of the system error, which is reported as a directory-creation error
/// naming `path`.
pub fn after_create(path: String, failure: Option<String>) -> (r: Result<(), FsError>)
    ensures
        failure is None ==> r == Ok::<(), FsError>(()),
        failure matches Some(cause) ==> r == Err::<(), _>(
            (FsError { op: FsOp::DirectoryCreate, path: path, cause: cause }),
        ),
{
    match failure {
        None => Ok(()),
        Some(cause) => Err(FsError { op: FsOp::DirectoryCreate, path, cause }),
    }
}

/// Turn the outcome of the second resolution attempt — the one made right
/// after the directory was successfully created — into the final result of
/// the canonicalization.
///
/// A failure here means the freshly created directory still does not resolve
/// (for instance a race removed it again); it is reported as an error
/// distinct from the creation error, naming `path`.
pub fn after_second_resolve(path: String, outcome: ResolveOutcome) -> (r: Result<String, FsError>)
    ensures
        outcome matches ResolveOutcome::Resolved(canonical) ==> r == Ok::<_, FsError>(canonical),
        outcome matches ResolveOutcome::Failed(cause) ==> r == Err::<String, _>(
            (FsError { op: FsOp::CanonicalizeAfterCreate, path: path, cause: cause }),
        ),
{
    match outcome {
        ResolveOutcome::Resolved(canonical) => Ok(canonical),
        ResolveOutcome::Failed(cause) => Err(
            FsError { op: FsOp::CanonicalizeAfterCreate, path, cause },
        ),
    }
}

} // verus!
