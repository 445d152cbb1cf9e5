//! The progress of one clone: the remote side's text and the counters of
//! the transfer, each turned into lines with an index of its own series.

use vstd::prelude::*;
use crate::progress::{ProgressCallbackHelper, ReceivingReport, ResolvingReport};
use crate::sideband::{
    checked_update_remote,
    fragments,
    lemma_remote_index_grows,
    lemma_remote_messages_ordered,
    message_views,
    remote_messages,
    remote_next_index,
    update_remote,
    ProgressMessage,
};

verus! {

/// The index of the first line of the remote side's text.
pub const FIRST_REMOTE_INDEX: usize = 1;

/// The index of the lines of the receiving phase.
pub const RECEIVING_INDEX: usize = 100;

/// The index of the lines of the resolving phase.
pub const RESOLVING_INDEX: usize = 101;

/// The counters of a transfer as the backend reports them.
#[derive(Clone, Copy, Debug, PartialEq, Eq, Structural)]
pub struct TransferStats {
    pub total_objects: usize,
    pub received_objects: usize,
    pub received_bytes: usize,
    pub indexed_deltas: usize,
    pub total_deltas: usize,
}

/// The line that a report of the counters gives, if any.
#[derive(Clone, Copy, Debug, PartialEq, Eq, Structural)]
pub enum TransferReport {
    Nothing,
    Receiving(ReceivingReport),
    Resolving(ResolvingReport),
}

/// What one clone remembers of its progress: the index of each of the two
/// series of lines, and the times and counts behind the rate limit.
#[derive(Clone, Copy, Debug, PartialEq, Eq, Structural)]
pub struct CloneProgress {
    pub remote_index: usize,
    pub transfer_index: usize,
    pub helper: ProgressCallbackHelper,
}

impl CloneProgress {
    /// The progress of a clone that begins, at the clock's origin.
    pub fn new() -> (p: CloneProgress)
        ensures
            p.remote_index == FIRST_REMOTE_INDEX,
            p.transfer_index == RECEIVING_INDEX,
            p.helper == (ProgressCallbackHelper {
                last_update_time: 0,
                last_throughput_update_time: 0,
                last_transfered_bytes: 0,
                previous_throughput: 0,
            }),
    {
        CloneProgress {
            remote_index: FIRST_REMOTE_INDEX,
            transfer_index: RECEIVING_INDEX,
            helper: ProgressCallbackHelper::default(),
        }
    }

    /// The counters and the time that `on_transfer` takes: those that the
    /// phase at hand takes.
    pub open spec fn accepts_transfer(self, stats: TransferStats, now: u128) -> bool {
        if self.transfer_index == RECEIVING_INDEX {
            self.helper.accepts_receiving(
                stats.received_objects,
                stats.total_objects,
                stats.received_bytes,
                now,
                self.transfer_index,
            )
        } else if self.transfer_index == RESOLVING_INDEX {
            self.helper.accepts_resolving(
                stats.indexed_deltas,
                stats.total_deltas,
                now,
                self.transfer_index,
            )
        } else {
            true
        }
    }

    /// The progress after a report of the counters.
    pub open spec fn after_transfer(self, stats: TransferStats, now: u128) -> CloneProgress {
        if self.transfer_index == RECEIVING_INDEX {
            CloneProgress {
                transfer_index: self.helper.receiving_update(
                    stats.received_objects,
                    stats.total_objects,
                    stats.received_bytes,
                    now,
                    self.transfer_index,
                ).next_index,
                helper: self.helper.after_receiving(
                    stats.received_objects,
                    stats.total_objects,
                    stats.received_bytes,
                    now,
                ),
                ..self
            }
        } else if self.transfer_index == RESOLVING_INDEX {
            CloneProgress {
                transfer_index: self.helper.resolving_update(
                    stats.indexed_deltas,
                    stats.total_deltas,
                    now,
                    self.transfer_index,
                ).next_index,
                helper: self.helper.after_resolving(stats.indexed_deltas, stats.total_deltas, now),
                ..self
            }
        } else {
            self
        }
    }

    /// The line that a report of the counters gives.
    pub open spec fn transfer_report(self, stats: TransferStats, now: u128) -> TransferReport {
        if self.transfer_index == RECEIVING_INDEX {
            match self.helper.receiving_update(
                stats.received_objects,
                stats.total_objects,
                stats.received_bytes,
                now,
                self.transfer_index,
            ).report {
                Some(report) => TransferReport::Receiving(report),
                None => TransferReport::Nothing,
            }
        } else if self.transfer_index == RESOLVING_INDEX {
            match self.helper.resolving_update(
                stats.indexed_deltas,
                stats.total_deltas,
                now,
                self.transfer_index,
            ).report {
                Some(report) => TransferReport::Resolving(report),
                None => TransferReport::Nothing,
            }
        } else {
            TransferReport::Nothing
        }
    }

    /// Takes the counters of the transfer at time `now`. They count for the
    /// receiving phase until its closing line is out, then for the resolving
    /// phase until its closing line is out, and after that for nothing.
    pub fn on_transfer(&mut self, stats: TransferStats, now: u128) -> (report: TransferReport)
        requires
            old(self).accepts_transfer(stats, now),
        ensures
            *final(self) == old(self).after_transfer(stats, now),
            report == old(self).transfer_report(stats, now),
    {
        if self.transfer_index == RECEIVING_INDEX {
            let update = self.helper.update_receiving(
                stats.received_objects,
                stats.total_objects,
                stats.received_bytes,
                now,
                self.transfer_index,
            );
            self.transfer_index = update.next_index;
            match update.report {
                Some(report) => TransferReport::Receiving(report),
                None => TransferReport::Nothing,
            }
        } else if self.transfer_index == RESOLVING_INDEX {
            let update = self.helper.update_resolving(
                stats.indexed_deltas,
                stats.total_deltas,
                now,
                self.transfer_index,
            );
            self.transfer_index = update.next_index;
            match update.report {
                Some(report) => TransferReport::Resolving(report),
                None => TransferReport::Nothing,
            }
        } else {
            TransferReport::Nothing
        }
    }

    /// Tells whether `on_transfer` takes these counters at this time.
    pub fn accepts(&self, stats: TransferStats, now: u128) -> (accepted: bool)
        ensures
            accepted == self.accepts_transfer(stats, now),
    {
        if self.transfer_index == RECEIVING_INDEX {
            self.helper.can_receive(
                stats.received_objects,
                stats.total_objects,
                stats.received_bytes,
                now,
                self.transfer_index,
            )
        } else if self.transfer_index == RESOLVING_INDEX {
            self.helper.can_resolve(
                stats.indexed_deltas,
                stats.total_deltas,
                now,
                self.transfer_index,
            )
        } else {
            true
        }
    }

    /// As `on_transfer`, for every input: `None`, with nothing changed,
    /// where `on_transfer` does not take the counters at this time.
    pub fn checked_on_transfer(&mut self, stats: TransferStats, now: u128) -> (report: Option<
        TransferReport,
    >)
        ensures
            report is Some <==> old(self).accepts_transfer(stats, now),
            report matches Some(r) ==> r == old(self).transfer_report(stats, now) && *final(self)
                == old(self).after_transfer(stats, now),
            report is None ==> *final(self) == *old(self),
    {
        if self.accepts(stats, now) {
            Some(self.on_transfer(stats, now))
        } else {
            None
        }
    }

    /// As `on_sideband`, for every buffer: `None`, with nothing changed,
    /// where the index would leave the range of indices. The lines are given
    /// wherever the range has room for as many indices as the buffer has
    /// bytes.
    pub fn checked_on_sideband(&mut self, msg: &[u8]) -> (lines: Option<Vec<ProgressMessage>>)
        ensures
            old(self).remote_index + msg@.len() <= usize::MAX ==> lines is Some,
            lines matches Some(l) ==> final(self).remote_index == remote_next_index(
                old(self).remote_index as nat,
                fragments(msg@),
            ) && message_views(l@) == remote_messages(
                old(self).remote_index as nat,
                fragments(msg@),
            ),
            lines is None ==> final(self).remote_index == old(self).remote_index,
            final(self).remote_index >= old(self).remote_index,
            final(self).transfer_index == old(self).transfer_index,
            final(self).helper == old(self).helper,
    {
        proof {
            lemma_remote_index_grows(self.remote_index as nat, fragments(msg@));
        }
        match checked_update_remote(self.remote_index, msg) {
            Some(update) => {
                self.remote_index = update.next_index;
                Some(update.messages)
            },
            None => None,
        }
    }

    /// Takes a buffer of the remote side's text and gives its lines.
    pub fn on_sideband(&mut self, msg: &[u8]) -> (lines: Vec<ProgressMessage>)
        requires
            remote_next_index(old(self).remote_index as nat, fragments(msg@)) <= usize::MAX,
        ensures
            final(self).remote_index == remote_next_index(
                old(self).remote_index as nat,
                fragments(msg@),
            ),
            final(self).remote_index >= old(self).remote_index,
            final(self).transfer_index == old(self).transfer_index,
            final(self).helper == old(self).helper,
            message_views(lines@) == remote_messages(
                old(self).remote_index as nat,
                fragments(msg@),
            ),
    {
        proof {
            lemma_remote_index_grows(self.remote_index as nat, fragments(msg@));
        }
        let update = update_remote(self.remote_index, msg);
        self.remote_index = update.next_index;
        update.messages
    }
}

/// The lines that a series of reports of the counters gives, one for each.
pub open spec fn transfer_run(p: CloneProgress, calls: Seq<(TransferStats, u128)>) -> Seq<
    TransferReport,
>
    decreases calls.len(),
{
    if calls.len() == 0 {
        Seq::empty()
    } else {
        seq![p.transfer_report(calls[0].0, calls[0].1)] + transfer_run(
            p.after_transfer(calls[0].0, calls[0].1),
            calls.skip(1),
        )
    }
}

/// Once the receiving phase is over no report gives a line of it.
pub proof fn lemma_receiving_is_over(p: CloneProgress, calls: Seq<(TransferStats, u128)>, j: int)
    requires
        p.transfer_index != RECEIVING_INDEX,
        0 <= j < calls.len(),
    ensures
        transfer_run(p, calls).len() == calls.len(),
        !(transfer_run(p, calls)[j] is Receiving),
    decreases calls.len(),
{
    let next = p.after_transfer(calls[0].0, calls[0].1);
    lemma_transfer_run_len(next, calls.skip(1));
    if j > 0 {
        lemma_receiving_is_over(next, calls.skip(1), j - 1);
    }
}

/// Every report gives a line, or none.
pub proof fn lemma_transfer_run_len(p: CloneProgress, calls: Seq<(TransferStats, u128)>)
    ensures
        transfer_run(p, calls).len() == calls.len(),
    decreases calls.len(),
{
    if calls.len() > 0 {
        lemma_transfer_run_len(p.after_transfer(calls[0].0, calls[0].1), calls.skip(1));
    }
}

/// A transfer has one closing line of the receiving phase and no more:
/// behind the report that gives it, no report gives a line of that phase
/// again, however the counters read. And every line of the phase, the
/// closing one too, carries the one index of the phase, so that the closing
/// line takes the place of the lines before it.
pub proof fn lemma_receiving_closes_once(
    p: CloneProgress,
    calls: Seq<(TransferStats, u128)>,
    i: int,
    j: int,
)
    requires
        0 <= i < calls.len(),
        0 <= j < calls.len(),
    ensures
        transfer_run(p, calls).len() == calls.len(),
        transfer_run(p, calls)[i] matches TransferReport::Receiving(r) ==> r.index
            == RECEIVING_INDEX,
        i < j && (transfer_run(p, calls)[i] matches TransferReport::Receiving(r) && r.done) ==> !(
        transfer_run(p, calls)[j] is Receiving),
    decreases calls.len(),
{
    let next = p.after_transfer(calls[0].0, calls[0].1);
    let rest = calls.skip(1);
    lemma_transfer_run_len(next, rest);
    if i == 0 {
        if i < j {
            if transfer_run(p, calls)[0] matches TransferReport::Receiving(r) && r.done {
                assert(next.transfer_index == RESOLVING_INDEX);
                lemma_receiving_is_over(next, rest, j - 1);
            }
        }
    } else {
        if j > 0 {
            lemma_receiving_closes_once(next, rest, i - 1, j - 1);
        } else {
            lemma_receiving_closes_once(next, rest, i - 1, i - 1);
        }
    }
}

/// Where every object is there while the receiving phase lasts, the report
/// gives the closing line and the phase is over, whatever the clock says.
pub proof fn lemma_receiving_closes(p: CloneProgress, stats: TransferStats, now: u128)
    requires
        p.transfer_index == RECEIVING_INDEX,
        stats.received_objects == stats.total_objects,
        stats.total_objects > 0,
    ensures
        p.transfer_report(stats, now) matches TransferReport::Receiving(r) && r.done && r.index
            == RECEIVING_INDEX,
        p.after_transfer(stats, now).transfer_index == RESOLVING_INDEX,
{
}

/// The indices of the transfer's lines never go down, and every line of the
/// transfer carries the index of its phase: a report leaves the index of
/// the series where it was or moves it on by one, and leaves the index of
/// the remote side's text alone.
pub proof fn lemma_transfer_index_grows(p: CloneProgress, stats: TransferStats, now: u128)
    requires
        p.accepts_transfer(stats, now),
    ensures
        p.after_transfer(stats, now).transfer_index >= p.transfer_index,
        p.after_transfer(stats, now).transfer_index <= p.transfer_index + 1,
        p.after_transfer(stats, now).remote_index == p.remote_index,
        p.transfer_report(stats, now) matches TransferReport::Receiving(r) ==> r.index
            == RECEIVING_INDEX,
        p.transfer_report(stats, now) matches TransferReport::Resolving(r) ==> r.index
            == RESOLVING_INDEX,
{
}

/// The indices of the remote side's lines never go down: every line of a
/// buffer carries an index from the one before the buffer to the one behind
/// it, in rising order, so that from the first index on no line has a
/// smaller one.
pub proof fn lemma_remote_index_grows_over_buffer(index: nat, msg: Seq<u8>)
    ensures
        remote_next_index(index, fragments(msg)) >= index,
        forall|i: int|
            0 <= i < remote_messages(index, fragments(msg)).len() ==> index <= (
            #[trigger] remote_messages(index, fragments(msg))[i]).0 <= remote_next_index(
                index,
                fragments(msg),
            ),
{
    lemma_remote_index_grows(index, fragments(msg));
    lemma_remote_messages_ordered(index, fragments(msg));
}

} // verus!
