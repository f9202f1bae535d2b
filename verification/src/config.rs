//! Sizing and installation of the process-wide worker pool, and the parameter
//! record that drives a batch removal.

use crate::paths::RmPath;
use crate::sys;
use vstd::prelude::*;

verus! {

/// The smallest automatic worker count: automatic sizing never installs fewer
/// threads than this, even on a single-core host or when hardware detection
/// fails.
pub const MIN_NUM_THREADS: usize = 2;

/// The worker count that automatic sizing chooses: the detected hardware
/// parallelism, floored at `MIN_NUM_THREADS`; the floor alone when detection
/// failed.
pub open spec fn spec_default_num_threads(detected_parallelism: Option<usize>) -> usize {
    match detected_parallelism {
        Some(v) => if v >= MIN_NUM_THREADS {
            v
        } else {
            MIN_NUM_THREADS
        },
        None => MIN_NUM_THREADS,
    }
}

/// How a requested thread count resolves: an absent request stays absent and
/// leaves the runtime default in force; the sentinel `0` asks for automatic
/// sizing; any other count is taken verbatim, neither clamped nor validated.
pub open spec fn spec_resolved_threads(
    threads: Option<usize>,
    detected_parallelism: Option<usize>,
) -> Option<usize> {
    match threads {
        None => None,
        Some(t) => if t == 0 {
            Some(spec_default_num_threads(detected_parallelism))
        } else {
            Some(t)
        },
    }
}

/// A resolved count is never the automatic sentinel: whenever a count was
/// requested, a concrete positive worker count is installed.
pub proof fn lemma_resolved_threads_positive(
    threads: Option<usize>,
    detected_parallelism: Option<usize>,
)
    ensures
        spec_resolved_threads(threads, detected_parallelism) matches Some(n) ==> n >= 1,
{
}

/// Resolving an already-resolved request changes nothing: a second
/// configuration attempt asks for the same count as the first, whatever
/// parallelism is detected the second time.
pub proof fn lemma_resolved_threads_idempotent(
    threads: Option<usize>,
    detected_first: Option<usize>,
    detected_second: Option<usize>,
)
    ensures
        spec_resolved_threads(
            spec_resolved_threads(threads, detected_first),
            detected_second,
        ) == spec_resolved_threads(threads, detected_first),
{
}

/// The worker count for automatic sizing, from the detected hardware
/// parallelism (`None` when detection failed).
pub fn default_num_threads(detected_parallelism: Option<usize>) -> (r: usize)
    ensures
        r == spec_default_num_threads(detected_parallelism),
{
    match detected_parallelism {
        Some(value) => if value >= MIN_NUM_THREADS {
            value
        } else {
            MIN_NUM_THREADS
        },
        None => MIN_NUM_THREADS,
    }
}

/// Parameters that control the rmtree command.
#[derive(Clone, Debug)]
pub struct Params {
    /// The number of threads to run simultaneously: `None` keeps the runtime
    /// default, `Some(0)` asks for automatic sizing, any other count is used
    /// verbatim.
    pub threads: Option<usize>,
    /// Remove empty leading parent directories after each removal.
    pub parents: bool,
    /// The locations to delete.
    pub paths: Vec<RmPath>,
}

impl Params {
    /// Initialize the process-wide worker pool used by rmtree, and return the
    /// parameters with the thread request resolved. Call it once, before any
    /// removal; a later attempt to install a pool is silently ignored, and
    /// with no thread request the runtime default stays in force.
    ///
    /// `detected_parallelism` is the hardware parallelism the host reports,
    /// or `None` when detection failed; it only matters for the automatic
    /// request `Some(0)`.
    pub fn update(self, detected_parallelism: Option<usize>) -> (r: Self)
        ensures
            r.threads == spec_resolved_threads(self.threads, detected_parallelism),
            r.parents == self.parents,
            r.paths == self.paths,
    {
        match self.threads {
            None => self,
            Some(threads) => {
                let num_threads: usize = if threads == 0 {
                    default_num_threads(detected_parallelism)
                } else {
                    threads
                };
                let updated = Params {
                    threads: Some(num_threads),
                    parents: self.parents,
                    paths: self.paths,
                };
                sys::install_thread_pool(num_threads);
                updated
            },
        }
    }
}

} // verus!
