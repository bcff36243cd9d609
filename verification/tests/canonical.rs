use gpm_core::canonical::{
    after_create, after_first_resolve, after_second_resolve, FirstResolveStep, ResolveOutcome,
};
use gpm_core::errors::{FsError, FsOp};

#[test]
fn existing_path_resolves_at_once() {
    let step = after_first_resolve(ResolveOutcome::Resolved("/home/user/data".to_string()));
    assert!(matches!(step, FirstResolveStep::Done(c) if c == "/home/user/data"));
}

#[test]
fn missing_path_is_created_then_resolved() {
    // "./rel/missing/path" does not resolve, so the directory and its
    // missing ancestors are created; the retried resolution then yields the
    // absolute equivalent.
    let step = after_first_resolve(ResolveOutcome::Failed(
        "No such file or directory".to_string(),
    ));
    assert!(matches!(step, FirstResolveStep::CreateDirectories));
    let created = after_create("./rel/missing/path".to_string(), None);
    assert_eq!(created, Ok(()));
    let done = after_second_resolve(
        "./rel/missing/path".to_string(),
        ResolveOutcome::Resolved("/work/rel/missing/path".to_string()),
    );
    assert_eq!(done, Ok("/work/rel/missing/path".to_string()));
}

#[test]
fn failed_creation_is_surfaced() {
    let created = after_create(
        "./rel/missing/path".to_string(),
        Some("permission denied".to_string()),
    );
    assert_eq!(
        created,
        Err(FsError {
            op: FsOp::DirectoryCreate,
            path: "./rel/missing/path".to_string(),
            cause: "permission denied".to_string(),
        })
    );
}

#[test]
fn failed_resolution_after_creation_is_surfaced() {
    let done = after_second_resolve(
        "./rel/missing/path".to_string(),
        ResolveOutcome::Failed("No such file or directory".to_string()),
    );
    assert_eq!(
        done,
        Err(FsError {
            op: FsOp::CanonicalizeAfterCreate,
            path: "./rel/missing/path".to_string(),
            cause: "No such file or directory".to_string(),
        })
    );
}

#[test]
fn repeated_resolution_is_identical() {
    // When the path already exists both runs finish at the first step, with
    // the identical canonical path and nothing asked of the filesystem.
    let first = after_first_resolve(ResolveOutcome::Resolved("/srv/store".to_string()));
    let second = after_first_resolve(ResolveOutcome::Resolved("/srv/store".to_string()));
    let c1 = match first {
        FirstResolveStep::Done(c) => c,
        FirstResolveStep::CreateDirectories => panic!("resolved path asked for creation"),
    };
    let c2 = match second {
        FirstResolveStep::Done(c) => c,
        FirstResolveStep::CreateDirectories => panic!("resolved path asked for creation"),
    };
    assert_eq!(c1, c2);
    assert_eq!(c1, "/srv/store".to_string());
}
