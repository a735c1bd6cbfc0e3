use vstd::prelude::*;

use crate::age::{is_fresh, spec_is_fresh};

verus! {

/// What the directory walk reports for one path that matched the pattern.
#[derive(Clone, Copy, Debug, PartialEq, Eq, Structural)]
pub enum Entry {
    /// The walk could not read this entry.
    EnumerationError,
    /// The file's metadata could not be read, or the platform records no
    /// creation time.
    NoCreationTime,
    /// The file was created this many seconds after the Unix epoch.
    CreatedAt(u64),
}

/// What to do with one entry.
#[derive(Clone, Copy, Debug, PartialEq, Eq, Structural)]
pub enum Step {
    /// Log the enumeration error at error level and go on.
    ReportError,
    /// Pass over the entry without a word.
    Skip,
    /// Hand the file to the optimizer; it has been counted.
    Optimize,
}

/// Severity of a log line.
#[derive(Clone, Copy, Debug, PartialEq, Eq, Structural)]
pub enum Level {
    Info,
    Error,
}

/// An entry whose file goes to the optimizer: its creation time is known
/// and it is fresh.
pub open spec fn spec_is_candidate(now_secs: u64, entry: Entry) -> bool {
    match entry {
        Entry::CreatedAt(created) => spec_is_fresh(now_secs, created),
        _ => false,
    }
}

/// The step taken for `entry` in a run started at `now_secs`.
pub open spec fn spec_step(now_secs: u64, entry: Entry) -> Step {
    match entry {
        Entry::EnumerationError => Step::ReportError,
        Entry::NoCreationTime => Step::Skip,
        Entry::CreatedAt(created) => if spec_is_fresh(now_secs, created) {
            Step::Optimize
        } else {
            Step::Skip
        },
    }
}

/// How many of `entries` a run started at `now_secs` hands to the optimizer.
pub open spec fn spec_attempts(now_secs: u64, entries: Seq<Entry>) -> nat
    decreases entries.len(),
{
    if entries.len() == 0 {
        0
    } else {
        spec_attempts(now_secs, entries.drop_last()) + if spec_step(
            now_secs,
            entries.last(),
        ) == Step::Optimize {
            1nat
        } else {
            0nat
        }
    }
}

/// One pass over the files under a directory: the time the pass started
/// and how many files it has handed to the optimizer so far. The count
/// is of attempts; an optimization that fails still counts.
pub struct Scan {
    pub now_secs: u64,
    pub attempted: u64,
}

impl Scan {
    /// A pass that starts at `now_secs` (seconds since the Unix epoch)
    /// and has attempted nothing yet.
    pub fn new(now_secs: u64) -> (r: Scan)
        ensures
            r.now_secs == now_secs,
            r.attempted == 0,
    {
        Scan { now_secs, attempted: 0 }
    }

    /// Decides what to do with the next entry of the walk. A fresh file
    /// is counted before it is optimized, so the count includes files whose
    /// optimization then fails.
    pub fn on_entry(&mut self, entry: Entry) -> (r: Step)
        requires
            old(self).attempted < u64::MAX,
        ensures
            r == spec_step(old(self).now_secs, entry),
            final(self).now_secs == old(self).now_secs,
            final(self).attempted == old(self).attempted + if r == Step::Optimize {
                1u64
            } else {
                0u64
            },
    {
        match entry {
            Entry::EnumerationError => Step::ReportError,
            Entry::NoCreationTime => Step::Skip,
            Entry::CreatedAt(created) => {
                if is_fresh(self.now_secs, created) {
                    self.attempted = self.attempted + 1;
                    Step::Optimize
                } else {
                    Step::Skip
                }
            },
        }
    }

    /// The number of files handed to the optimizer, reported once the
    /// walk is over.
    pub fn summary(&self) -> (r: u64)
        ensures
            r == self.attempted,
    {
        self.attempted
    }
}

/// The level at which the result of one optimization is logged: success
/// at info level, failure at error level. Either way the pass goes on.
pub fn outcome_level(succeeded: bool) -> (r: Level)
    ensures
        r == (if succeeded {
            Level::Info
        } else {
            Level::Error
        }),
{
    if succeeded {
        Level::Info
    } else {
        Level::Error
    }
}

} // verus!
