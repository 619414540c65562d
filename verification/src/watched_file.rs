//! Change detection for a single watched file.
//!
//! A `WatchedFile` remembers the last modification timestamp it has
//! acknowledged (the baseline). The caller performs the actual filesystem
//! polls and hands each result in as a plain value: `Some(t)` when the
//! metadata could be read and gave modification time `t`, `None` when it
//! could not (permission error, deletion mid-flight, filesystem race).
//! All failure is represented as an absent result, never as a panic.

use vstd::prelude::*;

verus! {

/// Tracks the last-known modification marker of one file.
///
/// The baseline is updated only through [`WatchedFile::accept_changes`],
/// never speculatively.
pub struct WatchedFile {
    modified: u64,
}

/// What comparing a fresh poll against a baseline reports: `None` when the
/// poll itself failed, otherwise whether the observed timestamp differs
/// from the baseline.
pub open spec fn spec_is_modified(baseline: u64, poll: Option<u64>) -> Option<bool> {
    match poll {
        Some(t) => Some(t != baseline),
        None => None,
    }
}

/// The baseline after a commit: a successful poll becomes the new baseline,
/// a failed poll leaves the old one untouched.
pub open spec fn spec_commit(baseline: u64, poll: Option<u64>) -> u64 {
    match poll {
        Some(t) => t,
        None => baseline,
    }
}

impl WatchedFile {
    /// The last modification timestamp acknowledged as seen.
    pub closed spec fn baseline(&self) -> u64 {
        self.modified
    }

    /// Starts watching from an initial poll result. Construction fails
    /// (returns `None`) when the initial poll failed: a watcher needs a
    /// stat-able file to take its first baseline from.
    pub fn new(poll: Option<u64>) -> (r: Option<WatchedFile>)
        ensures
            match poll {
                Some(t) => r matches Some(w) && w.baseline() == t,
                None => r is None,
            },
    {
        match poll {
            Some(t) => Some(WatchedFile { modified: t }),
            None => None,
        }
    }

    /// Compares a fresh poll result against the baseline. `None` when the
    /// poll failed; otherwise whether the file changed since the baseline
    /// was last committed. Never alters the baseline.
    pub fn is_modified(&self, poll: Option<u64>) -> (r: Option<bool>)
        ensures
            r == spec_is_modified(self.baseline(), poll),
    {
        match poll {
            Some(t) => Some(t != self.modified),
            None => None,
        }
    }

    /// Commits the given poll result as the new baseline. Fails softly
    /// (baseline untouched, returns `None`) when the poll failed.
    pub fn accept_changes(&mut self, poll: Option<u64>) -> (r: Option<()>)
        ensures
            final(self).baseline() == spec_commit(old(self).baseline(), poll),
            r is Some <==> poll is Some,
    {
        match poll {
            Some(t) => {
                self.modified = t;
                Some(())
            },
            None => None,
        }
    }
}

/// As long as every poll reports the baseline timestamp itself, the file
/// counts as unchanged; and since comparing alters nothing, the baseline
/// stays what it was across any such sequence of polls.
pub proof fn lemma_unchanged_polls(baseline: u64, polls: Seq<Option<u64>>)
    requires
        forall|i: int| 0 <= i < polls.len() ==> polls[i] == Some(baseline),
    ensures
        forall|i: int| 0 <= i < polls.len() ==> spec_is_modified(baseline, polls[i]) == Some(
            false,
        ),
{
}

/// Committing a poll and immediately comparing against the same poll
/// reports "unchanged": a commit acknowledges exactly what it saw.
pub proof fn lemma_commit_then_unchanged(baseline: u64, t: u64)
    ensures
        spec_is_modified(spec_commit(baseline, Some(t)), Some(t)) == Some(false),
{
}

} // verus!
