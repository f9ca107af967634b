//! Single-instance lock.
//!
//! At most one launcher instance should run against a given working
//! directory.  The lock is a file of a fixed name in that directory, created
//! exclusively (creation fails when the file already exists) and held under
//! an OS-level exclusive lock for as long as the handle lives.  Releasing
//! the lock removes the file again, so between two runs the file does not
//! exist.  Acquisition never waits: a second caller fails immediately.
//! After a crash a stale lock file can survive, so a failed acquisition is a
//! condition the caller must put to the user — proceed without the lock or
//! abort — rather than a hard error (see `dialogs::resolve_lock_contention`).

use vstd::prelude::*;
use tempfile::NamedTempFile;

verus! {

#[verifier::external_type_specification]
#[verifier::external_body]
pub struct ExNamedTempFile(NamedTempFile);

/// Relies on `tempfile::Builder` with `rand_bytes(0)`, whose file name is
/// then exactly the prefix and whose creation fails when the file already
/// exists; on `fs2::FileExt::try_lock_exclusive`, a non-blocking exclusive
/// `flock`; and on `NamedTempFile`'s drop, which removes the file.  Whether
/// acquisition succeeds depends on the state of the directory, so nothing
/// further is promised of either outcome.
#[verifier::external_body]
fn create_locked_file(directory: &String, file_name: &String) -> (r: Result<NamedTempFile, String>) {
    let file = match tempfile::Builder::new().prefix(file_name.as_str()).rand_bytes(
        0,
    ).tempfile_in(directory.as_str()) {
        Ok(file) => file,
        Err(e) => return Err(e.to_string()),
    };
    match fs2::FileExt::try_lock_exclusive(file.as_file()) {
        Ok(()) => Ok(file),
        Err(e) => Err(e.to_string()),
    }
}

/// Relies on `NamedTempFile::close`: unlocks the handle and removes the
/// file, best effort — release runs on shutdown paths where a failure must
/// not propagate.
#[verifier::external_body]
fn close_locked_file(file: NamedTempFile) {
    let _ = file.close();
}

/// An exclusively held, self-deleting lock file, bound to one path for the
/// life of the handle.
pub struct SingleInstanceLock {
    file: NamedTempFile,
}

impl SingleInstanceLock {
    /// Try to take the lock file `file_name` inside `directory`.  Never
    /// waits: when another instance holds the lock (or a stale file
    /// survives a crash), the attempt fails immediately with the
    /// operating system's reason, and the caller decides — with the user —
    /// whether to proceed without the lock or to abort.
    pub fn try_acquire(directory: &String, file_name: &String) -> (r: Result<
        SingleInstanceLock,
        String,
    >) {
        match create_locked_file(directory, file_name) {
            Ok(file) => Ok(SingleInstanceLock { file }),
            Err(reason) => Err(reason),
        }
    }

    /// Release the lock: unlock and remove the file, best effort.  Dropping
    /// the handle without calling this still removes the file.
    pub fn release(self) {
        let SingleInstanceLock { file } = self;
        close_locked_file(file);
    }
}

} // verus!
