//! The reload worker's state machine.
//!
//! The worker decides, from each poll observation, whether to wait out the
//! interval, retry at once, attempt a full read, or give up because the
//! watched file is gone. The driver thread performs the actual filesystem
//! access, timing and channel traffic and hands the results in as plain
//! values; every decision in between is made here.

use crate::channel::UpdateChannel;
use crate::st_shader::{spec_assemble, ShadertoyShader};
use crate::watched_file::{spec_commit, WatchedFile};
use vstd::prelude::*;

verus! {

/// How many consecutive failed-existence observations are fatal.
pub const ABSENCE_THRESHOLD: usize = 5;

/// The watched file could not be observed at all.
#[derive(Debug)]
pub struct NoFile;

/// Why the worker stopped for good.
pub enum WorkAbortion {
    NoFile,
}

/// A message from the worker to the render loop, consumed exactly once.
pub enum WorkerUpdate {
    NewShader(ShadertoyShader),
}

/// What the worker asks its driver to do after one poll observation.
#[derive(Clone, Copy, Debug, PartialEq, Eq, Structural)]
pub enum TickCommand {
    /// Nothing to do: advance the interval timer and poll again after it.
    Wait,
    /// Transient metadata error while the file exists: poll again at once,
    /// without waiting out the interval.
    RetryNow,
    /// The file changed: attempt a full read.
    Read,
    /// The file has been absent for too many consecutive polls; there is
    /// nothing left to render from, so the worker gives up.
    Abort,
}

/// The shader carried by an update.
pub open spec fn update_shader(u: WorkerUpdate) -> ShadertoyShader {
    match u {
        WorkerUpdate::NewShader(s) => s,
    }
}

/// One poll observation, over the plain state: given the baseline, the
/// consecutive-absence count, the fresh poll result and whether the file
/// exists, yields the new absence count and the command for the driver.
///
/// A successful poll (changed or not) and a transient error while the file
/// exists all break a run of absences and reset the count. An absence
/// below the threshold is a recoverable wait; reaching the threshold is
/// fatal.
pub open spec fn spec_observe(baseline: u64, count: usize, poll: Option<u64>, exists: bool) -> (
    usize,
    TickCommand,
) {
    match poll {
        Some(t) => if t != baseline {
            (0usize, TickCommand::Read)
        } else {
            (0usize, TickCommand::Wait)
        },
        None => if exists {
            (0usize, TickCommand::RetryNow)
        } else if count >= ABSENCE_THRESHOLD - 1 {
            (count, TickCommand::Abort)
        } else {
            ((count + 1) as usize, TickCommand::Wait)
        },
    }
}

/// Owns the watched file and the fixed header and footer texts; polls at a
/// fixed cadence and emits assembled shader updates.
pub struct BackgroundWorker {
    watched_file: WatchedFile,
    update_delta_us: u64,
    no_file_reported: usize,
    header: String,
    footer: String,
}

impl BackgroundWorker {
    /// The baseline timestamp of the watched file.
    pub closed spec fn baseline(&self) -> u64 {
        self.watched_file.baseline()
    }

    /// How many consecutive polls have observed the file as absent.
    pub closed spec fn absence_count(&self) -> usize {
        self.no_file_reported
    }

    /// The configured poll interval, in microseconds.
    pub closed spec fn delta_us(&self) -> u64 {
        self.update_delta_us
    }

    /// The fixed header text assembled before every shader body.
    pub closed spec fn header_text(&self) -> Seq<char> {
        self.header@
    }

    /// The fixed footer text assembled after every shader body.
    pub closed spec fn footer_text(&self) -> Seq<char> {
        self.footer@
    }

    /// Creates the worker together with the channel it will feed.
    pub fn new(
        watched_file: WatchedFile,
        update_delta_us: u64,
        header: String,
        footer: String,
    ) -> (r: Result<(BackgroundWorker, UpdateChannel), NoFile>)
        ensures
            r matches Ok((w, c)) && {
                &&& w.baseline() == watched_file.baseline()
                &&& w.absence_count() == 0
                &&& w.delta_us() == update_delta_us
                &&& w.header_text() == header@
                &&& w.footer_text() == footer@
                &&& c@ == Seq::<WorkerUpdate>::empty()
            },
    {
        let channel = UpdateChannel::new();
        Ok(
            (
                BackgroundWorker {
                    watched_file,
                    update_delta_us,
                    no_file_reported: 0,
                    header,
                    footer,
                },
                channel,
            ),
        )
    }

    /// Whether enough time has passed since the last acknowledged poll to
    /// check the file again; below the interval the driver should yield
    /// and retry.
    pub fn interval_elapsed(&self, elapsed_us: u64) -> (r: bool)
        ensures
            r == (elapsed_us >= self.delta_us()),
    {
        elapsed_us >= self.update_delta_us
    }

    /// Digests one poll observation: `poll` is the fresh modification
    /// timestamp (`None` when the metadata was unreadable) and `exists`
    /// whether the file is present at all. Updates the consecutive-absence
    /// count and tells the driver what to do next; the baseline is never
    /// touched here.
    pub fn observe(&mut self, poll: Option<u64>, exists: bool) -> (c: TickCommand)
        ensures
            (final(self).absence_count(), c) == spec_observe(
                old(self).baseline(),
                old(self).absence_count(),
                poll,
                exists,
            ),
            final(self).baseline() == old(self).baseline(),
            final(self).delta_us() == old(self).delta_us(),
            final(self).header_text() == old(self).header_text(),
            final(self).footer_text() == old(self).footer_text(),
    {
        match self.watched_file.is_modified(poll) {
            Some(modified) => {
                self.no_file_reported = 0;
                if modified {
                    TickCommand::Read
                } else {
                    TickCommand::Wait
                }
            },
            None => {
                if exists {
                    self.no_file_reported = 0;
                    TickCommand::RetryNow
                } else if self.no_file_reported >= ABSENCE_THRESHOLD - 1 {
                    TickCommand::Abort
                } else {
                    self.no_file_reported = self.no_file_reported + 1;
                    TickCommand::Wait
                }
            },
        }
    }

    /// Digests the outcome of a read attempt after a detected change.
    /// On a successful read the shader is assembled, the fresh poll is
    /// committed as the new baseline, and the update to deliver is
    /// returned. On a failed read nothing is committed and nothing is
    /// emitted, so the same change is retried on the next interval.
    pub fn on_read(&mut self, content: Option<&str>, commit_poll: Option<u64>) -> (r: Option<
        WorkerUpdate,
    >)
        ensures
            match content {
                Some(body) => {
                    &&& final(self).baseline() == spec_commit(old(self).baseline(), commit_poll)
                    &&& r matches Some(u) && update_shader(u)@ == spec_assemble(
                        old(self).header_text(),
                        body@,
                        old(self).footer_text(),
                    )
                },
                None => {
                    &&& final(self).baseline() == old(self).baseline()
                    &&& r is None
                },
            },
            final(self).absence_count() == old(self).absence_count(),
            final(self).delta_us() == old(self).delta_us(),
            final(self).header_text() == old(self).header_text(),
            final(self).footer_text() == old(self).footer_text(),
    {
        match content {
            Some(body) => {
                let shader = ShadertoyShader::new(self.header.as_str(), body, self.footer.as_str());
                self.watched_file.accept_changes(commit_poll);
                Some(WorkerUpdate::NewShader(shader))
            },
            None => None,
        }
    }
}

/// The absence threshold is exact: starting from a zero count, four
/// consecutive absence observations each ask the driver to wait and keep
/// going, and the fifth aborts. No update is ever emitted along the way:
/// only a read attempt can emit one, and no absence observation commands a
/// read.
pub proof fn lemma_absence_threshold(baseline: u64)
    ensures
        ({
            let (n1, c1) = spec_observe(baseline, 0, None, false);
            let (n2, c2) = spec_observe(baseline, n1, None, false);
            let (n3, c3) = spec_observe(baseline, n2, None, false);
            let (n4, c4) = spec_observe(baseline, n3, None, false);
            let (n5, c5) = spec_observe(baseline, n4, None, false);
            &&& c1 == TickCommand::Wait
            &&& c2 == TickCommand::Wait
            &&& c3 == TickCommand::Wait
            &&& c4 == TickCommand::Wait
            &&& c5 == TickCommand::Abort
        }),
{
}

} // verus!
