//! The trusted boundary: every call that leaves the library goes through one
//! of these wrappers. Each wrapper makes one outside call on a location held
//! as the library's own path type; what it states is only what the outside
//! source shows of every outcome, since every answer depends on the
//! filesystem at the moment of the call.

use crate::paths::RmPath;
use crate::remover::RmError;
use crate::remover::RmErrorKind;
use rayon::iter::IntoParallelRefIterator;
use rayon::iter::ParallelIterator;
use vstd::prelude::*;

verus! {

/// Relies on rayon's `ThreadPoolBuilder::build_global`: installs a
/// process-wide pool of exactly `num_threads` worker threads for all later
/// parallel fan-out. Installation is best-effort: when a pool is already
/// installed the attempt fails and is silently ignored.
#[verifier::external_body]
pub(crate) fn install_thread_pool(num_threads: usize) {
    let _ = rayon::ThreadPoolBuilder::new().num_threads(num_threads).build_global();
}

/// Relies on `std::path::Path::is_symlink`: whether the location is currently
/// a symbolic link, never following it. The answer depends on the filesystem
/// at call time, so nothing is stated of it.
#[verifier::external_body]
pub(crate) fn path_is_symlink(path: &RmPath) -> bool {
    let p: std::path::PathBuf = path.segments.iter().collect();
    p.is_symlink()
}

/// Relies on `std::path::Path::is_file`: whether the location currently names
/// a regular file (following symbolic links). The answer depends on the
/// filesystem at call time, so nothing is stated of it.
#[verifier::external_body]
pub(crate) fn path_is_file(path: &RmPath) -> bool {
    let p: std::path::PathBuf = path.segments.iter().collect();
    p.is_file()
}

/// Relies on `std::path::Path::exists`: whether the location currently
/// exists. The answer depends on the filesystem at call time, so nothing is
/// stated of it.
#[verifier::external_body]
pub(crate) fn path_exists(path: &RmPath) -> bool {
    let p: std::path::PathBuf = path.segments.iter().collect();
    p.exists()
}

/// Relies on `std::path::Path::read_dir`: the names of the immediate children
/// the directory holds at call time, in no promised order, or `None` when
/// enumeration fails (the location is absent, unreadable, or no directory).
/// A name that is not valid Unicode comes back lossily; the removal of such a
/// child then fails and is left to the parent's forcible removal.
#[verifier::external_body]
pub(crate) fn read_dir_children(path: &RmPath) -> Option<Vec<String>> {
    let p: std::path::PathBuf = path.segments.iter().collect();
    let entries = match p.read_dir() {
        Ok(entries) => entries,
        Err(_) => return None,
    };
    let mut names: Vec<String> = Vec::new();
    for entry in entries {
        if let Ok(entry) = entry {
            names.push(entry.file_name().to_string_lossy().into_owned());
        }
    }
    Some(names)
}

/// Relies on `rm_rf::remove`: force-removes the location and all descendants.
/// A symbolic link is removed as a link. An absent location is a `NotFound`
/// error; a location with no parent component or a trailing `.` or `..`
/// component is refused as an invalid target. Success depends on the
/// filesystem, so only the failure's own shape is stated: it concerns the
/// given location.
#[verifier::external_body]
pub(crate) fn force_remove(path: &RmPath) -> (r: Result<(), RmError>)
    ensures
        r matches Err(e) ==> e.path@ == path@,
{
    let p: std::path::PathBuf = path.segments.iter().collect();
    match rm_rf::remove(&p) {
        Ok(()) => Ok(()),
        Err(rm_rf::Error::NotFound) => Err(RmError { kind: RmErrorKind::NotFound, path: path.clone() }),
        Err(rm_rf::Error::InvalidTarget(_)) => Err(RmError { kind: RmErrorKind::InvalidTarget, path: path.clone() }),
        Err(rm_rf::Error::IoError(_)) => Err(RmError { kind: RmErrorKind::Io, path: path.clone() }),
    }
}

/// Relies on `rm_rf::ensure_removed`: as `force_remove`, but a location that
/// is already absent when the call begins counts as success. Success still
/// depends on the filesystem, so only the failure's own shape is stated: it
/// concerns the given location.
#[verifier::external_body]
pub(crate) fn ensure_removed(path: &RmPath) -> (r: Result<(), RmError>)
    ensures
        r matches Err(e) ==> e.path@ == path@,
{
    let p: std::path::PathBuf = path.segments.iter().collect();
    match rm_rf::ensure_removed(&p) {
        Ok(()) => Ok(()),
        Err(rm_rf::Error::NotFound) => Err(RmError { kind: RmErrorKind::NotFound, path: path.clone() }),
        Err(rm_rf::Error::InvalidTarget(_)) => Err(RmError { kind: RmErrorKind::InvalidTarget, path: path.clone() }),
        Err(rm_rf::Error::IoError(_)) => Err(RmError { kind: RmErrorKind::Io, path: path.clone() }),
    }
}

/// Relies on rayon's parallel iterator over a `Vec`: runs the library's
/// per-target unit of work once for every listed location, scheduled across
/// the installed worker pool; the closure only calls that verified function.
#[verifier::external_body]
pub(crate) fn par_remove_paths(paths: &Vec<RmPath>, parents: bool) {
    paths.par_iter().for_each(|path| crate::remover::remove_one_path(path, parents));
}

/// Relies on rayon's parallel iterator over a `Vec`: runs the library's
/// child-removal function once for every named child of `parent`, scheduled
/// across the installed worker pool; the closure only calls that verified
/// function. All calls finish before this returns, so the parent's own
/// removal never starts before its children's removals are complete.
#[verifier::external_body]
pub(crate) fn par_remove_children(parent: &RmPath, names: &Vec<String>) {
    names.par_iter().for_each(|name| crate::remover::remove_child(parent, name));
}

} // verus!
