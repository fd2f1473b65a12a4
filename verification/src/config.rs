//! Run configuration: worker count, verbosity, dry-run, and the decisions
//! each worker reads from it.

use vstd::prelude::*;

verus! {

/// A run's configuration: immutable for the duration of the run, read but
/// never mutated by every worker.
#[derive(Clone, Copy, PartialEq, Eq, Structural, Debug)]
pub struct RunConfig {
    pub threads: usize,
    pub verbose: bool,
    pub dry_run: bool,
}

/// The startup error a run can refuse its configuration with.
#[derive(Clone, Copy, PartialEq, Eq, Structural, Debug)]
pub enum ConfigError {
    /// A worker pool cannot be built with zero threads.
    ZeroThreads,
}

/// The worker count a run asks for: the explicit request when one was given,
/// else the host's available parallelism.
pub open spec fn requested_threads(threads_arg: Option<usize>, host_parallelism: usize) -> usize {
    match threads_arg {
        Some(t) => t,
        None => host_parallelism,
    }
}

/// What a run's inputs resolve to: a configuration whose worker count is the
/// requested one, whose verbosity is implied by dry-run, and which is refused
/// exactly when the requested worker count is zero.
pub open spec fn resolve_config_spec(
    threads_arg: Option<usize>,
    verbose: bool,
    dry_run: bool,
    host_parallelism: usize,
) -> Result<RunConfig, ConfigError> {
    if requested_threads(threads_arg, host_parallelism) == 0 {
        Err(ConfigError::ZeroThreads)
    } else {
        Ok(
            RunConfig {
                threads: requested_threads(threads_arg, host_parallelism),
                verbose: verbose || dry_run,
                dry_run,
            },
        )
    }
}

/// Resolve the recognized command-line inputs to a validated configuration.
pub fn resolve_config(
    threads_arg: Option<usize>,
    verbose: bool,
    dry_run: bool,
    host_parallelism: usize,
) -> (r: Result<RunConfig, ConfigError>)
    ensures
        r == resolve_config_spec(threads_arg, verbose, dry_run, host_parallelism),
{
    let t = match threads_arg {
        Some(t) => t,
        None => host_parallelism,
    };
    if t == 0 {
        Err(ConfigError::ZeroThreads)
    } else {
        Ok(RunConfig { threads: t, verbose: verbose || dry_run, dry_run })
    }
}

/// Whether a worker announces a (file, algorithm) computation before running
/// it: exactly in verbose mode.
pub fn announces(c: &RunConfig) -> (r: bool)
    ensures
        r == c.verbose,
{
    c.verbose
}

/// Whether a worker actually hashes and writes sidecars: suppressed exactly
/// by dry-run.
pub fn performs_writes(c: &RunConfig) -> (r: bool)
    ensures
        r == !c.dry_run,
{
    !c.dry_run
}

/// Dry run is a faithful preview: a configuration resolved with dry-run set
/// is verbose (every would-be computation is announced) and performs no
/// hashing or write.
pub proof fn lemma_dry_run_previews_without_writing(
    threads_arg: Option<usize>,
    verbose: bool,
    host_parallelism: usize,
)
    ensures
        match resolve_config_spec(threads_arg, verbose, true, host_parallelism) {
            Ok(c) => c.verbose && c.dry_run,
            Err(e) => e == ConfigError::ZeroThreads && requested_threads(
                threads_arg,
                host_parallelism,
            ) == 0,
        },
{
}

/// The worker count steers scheduling only: two configurations resolved from
/// the same flags but different worker counts agree on every decision flag,
/// so what is announced, computed and written does not depend on it.
pub proof fn lemma_thread_count_decides_nothing(
    t1: Option<usize>,
    t2: Option<usize>,
    verbose: bool,
    dry_run: bool,
    h1: usize,
    h2: usize,
)
    ensures
        match (
            resolve_config_spec(t1, verbose, dry_run, h1),
            resolve_config_spec(t2, verbose, dry_run, h2),
        ) {
            (Ok(c1), Ok(c2)) => c1.verbose == c2.verbose && c1.dry_run == c2.dry_run,
            _ => true,
        },
{
}

} // verus!
