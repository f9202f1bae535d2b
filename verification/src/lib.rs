//! Remove directory trees and files in parallel.
//!
//! The library classifies each target as a leaf (a regular file or a symbolic
//! link, deleted directly and never followed) or as a directory, whose
//! immediate children are removed in parallel before the directory itself.
//! Failures at any node are absorbed so that one undeletable entry never
//! aborts the removal of its siblings. A process-wide worker pool, sized once
//! up front, schedules all parallel fan-out, and empty leading parent
//! directories can be pruned upward after each removal.

mod config;
mod paths;
mod remover;
mod sys;

pub use config::default_num_threads;
pub use config::lemma_resolved_threads_idempotent;
pub use config::lemma_resolved_threads_positive;
pub use config::spec_default_num_threads;
pub use config::spec_resolved_threads;
pub use config::Params;
pub use config::MIN_NUM_THREADS;
pub use paths::lemma_parent_is_prefix;
pub use paths::lemma_parent_of_child;
pub use paths::spec_child;
pub use paths::spec_parent;
pub use paths::RmPath;
pub use remover::rmtree;
pub use remover::rmtrees;
pub use remover::rmtrees_and_parents;
pub use remover::rmtrees_with_params;
pub use remover::RmError;
pub use remover::RmErrorKind;
