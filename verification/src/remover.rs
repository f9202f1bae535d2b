//! The tree remover and the batch entry points.
//!
//! A target is classified at the moment it is processed: a symbolic link or a
//! regular file is a leaf and is deleted directly; anything else is treated as
//! a directory, whose immediate children are removed in parallel before the
//! directory itself. Every child failure is absorbed independently, so one
//! undeletable entry never halts its siblings; the batch entry points absorb
//! all failures and report nothing.

use crate::config::Params;
use crate::paths::RmPath;
use crate::sys;
use vstd::prelude::*;

verus! {

/// The ways a removal can fail.
#[derive(Clone, Copy, Debug, PartialEq, Eq, Structural)]
pub enum RmErrorKind {
    /// The location was already absent when its deletion was attempted.
    NotFound,
    /// The location cannot be a removal target: it has no parent component,
    /// or ends in a `.` or `..` component.
    InvalidTarget,
    /// The underlying deletion or enumeration failed.
    Io,
}

/// A structured removal failure: the kind of failure and the location it
/// concerns. The batch entry points discard these; only the single-path entry
/// point hands one to its caller.
#[derive(Clone, Debug)]
pub struct RmError {
    pub kind: RmErrorKind,
    pub path: RmPath,
}

/// Remove directory trees and files based on the specified `Params`.
///
/// The worker pool is (re)configured first from the parameters' thread
/// request; `detected_parallelism` is the hardware parallelism the host
/// reports, used only for an automatic request. Completion is the only
/// observable outcome: no failure ever reaches the caller.
pub fn rmtrees_with_params(params: Params, detected_parallelism: Option<usize>) {
    let params = params.update(detected_parallelism);
    if params.parents {
        rmtrees_and_parents(&params.paths);
    } else {
        rmtrees(&params.paths);
    }
}

/// Remove the specified directory trees and files in parallel. Each target is
/// handed to the tree remover independently; every failure is absorbed.
pub fn rmtrees(paths: &Vec<RmPath>) {
    sys::par_remove_paths(paths, false);
}

/// Remove the specified directory trees and files in parallel, then prune the
/// empty leading parent directories of each target. Every failure is
/// absorbed; two targets sharing an ancestor may race to prune it, and the
/// loser simply stops its walk.
pub fn rmtrees_and_parents(paths: &Vec<RmPath>) {
    sys::par_remove_paths(paths, true);
}

/// Remove either a single file or a directory and its contents.
///
/// A symbolic link or a regular file is deleted as a leaf: a link is removed
/// as a link, never followed. Anything else takes the directory path, whose
/// final forcible removal treats an already-absent target as success. Any
/// reported failure concerns the given location itself.
pub fn rmtree(path: &RmPath) -> (r: Result<(), RmError>)
    ensures
        r matches Err(e) ==> e.path@ == path@,
{
    if sys::path_is_symlink(path) || sys::path_is_file(path) {
        sys::force_remove(path)
    } else {
        remove_directory(path)
    }
}

/// Remove one target and, when asked, prune its empty leading parent
/// directories. The removal outcome is absorbed here: this is the unit of
/// work the batch fan-out schedules, and a failure of one unit never reaches
/// another.
pub(crate) fn remove_one_path(path: &RmPath, parents: bool) {
    let _ = rmtree(path);
    if parents {
        remove_leading_directories(path);
    }
}

/// Remove a directory: enumerate its immediate children, remove them in
/// parallel, each failure absorbed independently, then forcibly remove the
/// now-empty directory itself, so that no child removal runs after its
/// parent's. When enumeration fails, fall back directly to the forcible
/// removal of the whole target. Either way the outcome reported is that of
/// the final forcible call on this location, for which an already-absent
/// target counts as success.
fn remove_directory(path: &RmPath) -> (r: Result<(), RmError>)
    ensures
        r matches Err(e) ==> e.path@ == path@,
{
    match sys::read_dir_children(path) {
        None => sys::ensure_removed(path),
        Some(names) => {
            sys::par_remove_children(path, &names);
            sys::ensure_removed(path)
        },
    }
}

/// Remove one immediate child of `parent`, classifying it the same way the
/// tree remover classifies a target: a symbolic link or regular file is
/// deleted as a leaf, anything else recurses as a directory. The outcome is
/// absorbed: a child's failure never halts or affects its siblings.
pub(crate) fn remove_child(parent: &RmPath, name: &String) {
    let child = parent.child(name);
    if sys::path_is_symlink(&child) || sys::path_is_file(&child) {
        let _ = sys::force_remove(&child);
    } else {
        let _ = remove_directory(&child);
    }
}

/// Attempt to remove `path` as an empty directory: it is removed only when it
/// can be enumerated and has no entries. Returns whether it was removed; a
/// vanished directory, one that cannot be read, and one with entries are all
/// left alone.
fn try_remove_empty_dir(path: &RmPath) -> bool {
    match sys::read_dir_children(path) {
        None => false,
        Some(names) => if names.len() == 0 {
            sys::force_remove(path).is_ok()
        } else {
            false
        },
    }
}

/// Remove empty leading parent directories of the specified target: walk
/// upward from the target's parent, removing each ancestor while it is an
/// empty directory, and stop at the first one that is absent, not empty, or
/// cannot be removed. The walk terminates: each step drops one path
/// component.
fn remove_leading_directories(path: &RmPath) {
    let mut current: Option<RmPath> = path.parent();
    loop
        decreases (match current {
            Some(p) => p@.len() + 1,
            None => 0,
        }),
    {
        match current {
            None => {
                break;
            },
            Some(parent) => {
                if !sys::path_exists(&parent) {
                    break;
                }
                if !try_remove_empty_dir(&parent) {
                    break;
                }
                current = parent.parent();
            },
        }
    }
}

} // verus!
