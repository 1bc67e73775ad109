//! A model of the one filesystem effect the launcher has — recursive
//! creation of the data directory — and the classification of its outcome.
//! The host performs the actual creation and reports what the OS said.

use crate::startup::StartupError;
use vstd::prelude::*;

verus! {

/// What the OS reported for the recursive creation of the data directory.
#[derive(Clone, Copy, Debug, PartialEq, Eq, Structural)]
pub enum DirOutcome {
    /// The directory (and any missing ancestor) was created.
    Created,
    /// The directory was already there; nothing was done.
    AlreadyExists,
    /// The OS refused, for any other reason (permissions, read-only volume).
    Failed,
}

/// The directory tree, modelled as the set of directory paths that exist.
/// Recursive creation makes the target directory exist and leaves a
/// directory that already exists as it is.
pub open spec fn create_dir_all_model(fs: Set<Seq<char>>, dir: Seq<char>) -> Set<Seq<char>> {
    fs.insert(dir)
}

/// A directory that already exists is success, not failure; every other
/// reported failure is fatal and aborts startup.
pub fn check_dir_created(outcome: DirOutcome) -> (r: Result<(), StartupError>)
    ensures
        r is Ok <==> !(outcome is Failed),
        outcome is Failed ==> r == Result::<(), StartupError>::Err(StartupError::DataDirCreateFailed),
{
    match outcome {
        DirOutcome::Created => Ok(()),
        DirOutcome::AlreadyExists => Ok(()),
        DirOutcome::Failed => Err(StartupError::DataDirCreateFailed),
    }
}

/// Directory creation is idempotent: creating a directory makes it exist,
/// and creating it again changes nothing — so a second resolution of the
/// same paths never fails merely because the directory is already there.
pub proof fn lemma_create_dir_idempotent(fs: Set<Seq<char>>, dir: Seq<char>)
    ensures
        create_dir_all_model(fs, dir).contains(dir),
        create_dir_all_model(create_dir_all_model(fs, dir), dir) == create_dir_all_model(fs, dir),
{
    assert(create_dir_all_model(create_dir_all_model(fs, dir), dir) =~= create_dir_all_model(
        fs,
        dir,
    ));
}

} // verus!
