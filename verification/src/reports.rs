//! Run reports of the command workers and the signal replay.

use vstd::prelude::*;

verus! {

/// What one pass of the Zulip command worker did.
#[derive(Clone, Copy, Debug, Default, PartialEq, Eq, Structural)]
pub struct ZulipCommandExecutionReport {
    pub accounts_scanned: usize,
    pub accounts_failed: usize,
    pub claimed: usize,
    pub completed: usize,
    pub retrying: usize,
    pub dead_lettered: usize,
}

/// The command counters of `a` and `b` added up; the account counters of
/// `a` kept.
pub open spec fn merged_report(a: ZulipCommandExecutionReport, b: ZulipCommandExecutionReport) -> ZulipCommandExecutionReport {
    ZulipCommandExecutionReport {
        claimed: (a.claimed + b.claimed) as usize,
        completed: (a.completed + b.completed) as usize,
        retrying: (a.retrying + b.retrying) as usize,
        dead_lettered: (a.dead_lettered + b.dead_lettered) as usize,
        ..a
    }
}

/// The counters of `a` and `b` can be added without overflow.
pub open spec fn mergeable(a: ZulipCommandExecutionReport, b: ZulipCommandExecutionReport) -> bool {
    &&& a.claimed + b.claimed <= usize::MAX
    &&& a.completed + b.completed <= usize::MAX
    &&& a.retrying + b.retrying <= usize::MAX
    &&& a.dead_lettered + b.dead_lettered <= usize::MAX
}

impl ZulipCommandExecutionReport {
    /// The empty report.
    pub open spec fn new_view() -> Self {
        ZulipCommandExecutionReport {
            accounts_scanned: 0,
            accounts_failed: 0,
            claimed: 0,
            completed: 0,
            retrying: 0,
            dead_lettered: 0,
        }
    }
}

impl ZulipCommandExecutionReport {
    /// An empty report.
    pub fn new() -> (report: Self)
        ensures
            report == (ZulipCommandExecutionReport {
                accounts_scanned: 0,
                accounts_failed: 0,
                claimed: 0,
                completed: 0,
                retrying: 0,
                dead_lettered: 0,
            }),
    {
        ZulipCommandExecutionReport {
            accounts_scanned: 0,
            accounts_failed: 0,
            claimed: 0,
            completed: 0,
            retrying: 0,
            dead_lettered: 0,
        }
    }

    /// The report of an account pass that claimed `claimed` commands.
    pub fn for_claimed(claimed: usize) -> (report: Self)
        ensures
            report == (ZulipCommandExecutionReport { claimed, ..ZulipCommandExecutionReport::new_view() }),
    {
        ZulipCommandExecutionReport {
            accounts_scanned: 0,
            accounts_failed: 0,
            claimed,
            completed: 0,
            retrying: 0,
            dead_lettered: 0,
        }
    }

    /// Counts a command that was executed and marked completed.
    pub fn record_completed(&mut self)
        requires
            old(self).completed < usize::MAX,
        ensures
            *final(self) == (ZulipCommandExecutionReport { completed: (old(self).completed + 1) as usize, ..*old(self) }),
    {
        self.completed = self.completed + 1;
    }

    /// Counts a command whose execution failed, by the status the store gave
    /// it when marking it failed: a dead letter, or a retry for any other
    /// status. A command the store no longer had (`None`) is not counted.
    pub fn record_failure(&mut self, updated_status: Option<&str>)
        requires
            old(self).dead_lettered < usize::MAX,
            old(self).retrying < usize::MAX,
        ensures
            *final(self) == match updated_status {
                None => *old(self),
                Some(status) => if status@ == "dead_letter"@ {
                    ZulipCommandExecutionReport { dead_lettered: (old(self).dead_lettered + 1) as usize, ..*old(self) }
                } else {
                    ZulipCommandExecutionReport { retrying: (old(self).retrying + 1) as usize, ..*old(self) }
                },
            },
    {
        match updated_status {
            None => {},
            Some(status) => {
                if crate::text::text_equal(status, "dead_letter") {
                    self.dead_lettered = self.dead_lettered + 1;
                } else {
                    self.retrying = self.retrying + 1;
                }
            },
        }
    }

    /// Adds the command counters of one account's report to this one.
    pub fn merge(&mut self, other: Self)
        requires
            mergeable(*old(self), other),
        ensures
            *final(self) == merged_report(*old(self), other),
    {
        self.claimed = self.claimed + other.claimed;
        self.completed = self.completed + other.completed;
        self.retrying = self.retrying + other.retrying;
        self.dead_lettered = self.dead_lettered + other.dead_lettered;
    }

    /// Records one scanned account: its report when its pass succeeded,
    /// `None` when it failed.
    pub fn record_account(&mut self, outcome: Option<Self>)
        requires
            old(self).accounts_scanned < usize::MAX,
            old(self).accounts_failed < usize::MAX,
            outcome matches Some(r) ==> mergeable(*old(self), r),
        ensures
            final(self).accounts_scanned == old(self).accounts_scanned + 1,
            match outcome {
                Some(r) => {
                    &&& final(self).accounts_failed == old(self).accounts_failed
                    &&& final(self).claimed == old(self).claimed + r.claimed
                    &&& final(self).completed == old(self).completed + r.completed
                    &&& final(self).retrying == old(self).retrying + r.retrying
                    &&& final(self).dead_lettered == old(self).dead_lettered + r.dead_lettered
                },
                None => {
                    &&& final(self).accounts_failed == old(self).accounts_failed + 1
                    &&& final(self).claimed == old(self).claimed
                    &&& final(self).completed == old(self).completed
                    &&& final(self).retrying == old(self).retrying
                    &&& final(self).dead_lettered == old(self).dead_lettered
                },
            },
    {
        self.accounts_scanned = self.accounts_scanned + 1;
        match outcome {
            Some(report) => self.merge(report),
            None => self.accounts_failed = self.accounts_failed + 1,
        }
    }
}

/// Law: merging adds the command counters and leaves the account counters
/// alone, whatever order two reports are merged in.
pub proof fn lemma_merge_adds_counters(
    a: ZulipCommandExecutionReport,
    b: ZulipCommandExecutionReport,
    c: ZulipCommandExecutionReport,
)
    requires
        mergeable(a, b),
        mergeable(merged_report(a, b), c),
        mergeable(a, c),
        mergeable(merged_report(a, c), b),
    ensures
        merged_report(merged_report(a, b), c) == merged_report(merged_report(a, c), b),
        merged_report(a, b).accounts_scanned == a.accounts_scanned,
        merged_report(a, b).accounts_failed == a.accounts_failed,
{
}

/// What one signal replay run replayed.
#[derive(Clone, Debug, PartialEq, Eq)]
pub struct SignalReplayRunReport {
    pub request_id: String,
    pub replayed_count: u32,
}

/// The bounds of a replay request, as far as the choice of replay reads
/// them: event log positions and times (nanoseconds since the Unix epoch).
#[derive(Clone, Copy, Debug, PartialEq, Eq, Structural)]
pub struct SignalReplayBounds {
    pub from_position: Option<i64>,
    pub to_position: Option<i64>,
    pub from_time: Option<i64>,
    pub to_time: Option<i64>,
}

/// Whether a replay reads the event log: it does when any bound is set.
pub fn uses_event_log_replay(bounds: &SignalReplayBounds) -> (uses: bool)
    ensures
        uses == (bounds.from_position is Some || bounds.to_position is Some
            || bounds.from_time is Some || bounds.to_time is Some),
{
    bounds.from_position.is_some() || bounds.to_position.is_some() || bounds.from_time.is_some()
        || bounds.to_time.is_some()
}

/// The later of two timestamps (nanoseconds since the Unix epoch).
pub fn max_timestamp(left: i64, right: i64) -> (latest: i64)
    ensures
        latest == if left >= right { left } else { right },
{
    if left >= right {
        left
    } else {
        right
    }
}

} // verus!
