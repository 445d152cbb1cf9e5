//! Rate-limited status lines for a transfer: the objects received so far with
//! the amount of data and the throughput, and the deltas resolved so far.
//!
//! Time is a count of milliseconds on a clock that the caller reads; only
//! differences between two readings are used.

use vstd::prelude::*;
use vstd::string::*;
use crate::text::{append_decimal, decimal};
use crate::units::{give_data_transfer, give_speed, unit_for, ByteUnit, ScaledAmount};

verus! {

/// A status line is shown at most once in this many milliseconds while the
/// transfer is incomplete.
pub const UPDATE_INTERVAL_MS: u128 = 100;

/// The throughput is measured anew once this many milliseconds have passed
/// since it was last measured.
pub const THROUGHPUT_INTERVAL_MS: u128 = 500;

/// What one transfer remembers between two progress callbacks.
#[derive(Clone, Copy, Debug, PartialEq, Eq, Structural)]
pub struct ProgressCallbackHelper {
    /// When a status line was last shown.
    pub last_update_time: u128,
    /// When the throughput was last measured.
    pub last_throughput_update_time: u128,
    /// The bytes received as of the last throughput measurement.
    pub last_transfered_bytes: usize,
    /// The throughput last measured, in bytes per second.
    pub previous_throughput: u128,
}

/// A "Receiving objects" line, ready to be written out but for the two
/// numbers with decimals.
#[derive(Clone, Copy, Debug, PartialEq, Eq, Structural)]
pub struct ReceivingReport {
    /// The index under which the line is delivered.
    pub index: usize,
    pub percent: usize,
    pub received: usize,
    pub total: usize,
    pub size: ScaledAmount,
    pub speed: ScaledAmount,
    /// Whether this is the line that closes the phase.
    pub done: bool,
}

/// A "Resolving deltas" line.
#[derive(Clone, Copy, Debug, PartialEq, Eq, Structural)]
pub struct ResolvingReport {
    /// The index under which the line is delivered.
    pub index: usize,
    pub percent: usize,
    pub indexed: usize,
    pub total: usize,
    /// Whether this is the line that closes the phase.
    pub done: bool,
}

/// What `update_receiving` hands back: the index for the next call, and the
/// line to show now, if any.
#[derive(Clone, Copy, Debug, PartialEq, Eq, Structural)]
pub struct ReceivingUpdate {
    pub next_index: usize,
    pub report: Option<ReceivingReport>,
}

/// What `update_resolving` hands back: the index for the next call, and the
/// line to show now, if any.
#[derive(Clone, Copy, Debug, PartialEq, Eq, Structural)]
pub struct ResolvingUpdate {
    pub next_index: usize,
    pub report: Option<ResolvingReport>,
}

/// `part` of `whole` in percent, rounded down.
pub open spec fn percent_of(part: nat, whole: nat) -> nat
    recommends
        whole > 0,
{
    part * 100 / whole
}

impl Default for ProgressCallbackHelper {
    /// The state at the clock's origin: nothing received, nothing measured.
    fn default() -> (h: Self)
        ensures
            h.last_update_time == 0,
            h.last_throughput_update_time == 0,
            h.last_transfered_bytes == 0,
            h.previous_throughput == 0,
    {
        ProgressCallbackHelper {
            last_update_time: 0,
            last_throughput_update_time: 0,
            last_transfered_bytes: 0,
            previous_throughput: 0,
        }
    }
}

impl ProgressCallbackHelper {
    /// Whether a call at `now` measures the throughput anew.
    pub open spec fn samples_at(self, now: u128) -> bool {
        now - self.last_throughput_update_time >= THROUGHPUT_INTERVAL_MS
    }

    /// Whether a call at `now` is far enough from the last line shown.
    pub open spec fn due_at(self, now: u128) -> bool {
        now - self.last_update_time >= UPDATE_INTERVAL_MS
    }

    /// The throughput that a call at `now` with `received_bytes` shows: the
    /// bytes since the last measurement per second where it measures anew,
    /// else the throughput last measured.
    pub open spec fn throughput_at(self, received_bytes: usize, now: u128) -> nat {
        if self.samples_at(now) {
            ((received_bytes - self.last_transfered_bytes) * 1000 / (now
                - self.last_throughput_update_time)) as nat
        } else {
            self.previous_throughput as nat
        }
    }

    /// The inputs that `update_receiving` takes: the clock has not gone back,
    /// the byte count has not gone back where it is measured against the last
    /// one, and a transfer that is complete has objects and room for one more
    /// index.
    pub open spec fn accepts_receiving(
        self,
        received_obj: usize,
        total_obj: usize,
        received_bytes: usize,
        now: u128,
        index: usize,
    ) -> bool {
        &&& now >= self.last_update_time
        &&& now >= self.last_throughput_update_time
        &&& self.samples_at(now) ==> received_bytes >= self.last_transfered_bytes
        &&& received_obj == total_obj ==> total_obj > 0 && index < usize::MAX
    }

    /// Tells whether `update_receiving` takes these inputs.
    pub fn can_receive(
        &self,
        received_obj: usize,
        total_obj: usize,
        received_bytes: usize,
        now: u128,
        index: usize,
    ) -> (accepted: bool)
        ensures
            accepted == self.accepts_receiving(received_obj, total_obj, received_bytes, now, index),
    {
        now >= self.last_update_time && now >= self.last_throughput_update_time && (now
            - self.last_throughput_update_time < THROUGHPUT_INTERVAL_MS || received_bytes
            >= self.last_transfered_bytes) && (received_obj != total_obj || (total_obj > 0
            && index < usize::MAX))
    }

    /// The state after a call of `update_receiving`.
    pub open spec fn after_receiving(
        self,
        received_obj: usize,
        total_obj: usize,
        received_bytes: usize,
        now: u128,
    ) -> ProgressCallbackHelper {
        ProgressCallbackHelper {
            last_update_time: if self.due_at(now) && received_obj < total_obj {
                now
            } else {
                self.last_update_time
            },
            last_throughput_update_time: if self.samples_at(now) {
                now
            } else {
                self.last_throughput_update_time
            },
            last_transfered_bytes: if self.samples_at(now) {
                received_bytes
            } else {
                self.last_transfered_bytes
            },
            previous_throughput: self.throughput_at(received_bytes, now) as u128,
        }
    }

    /// What a call of `update_receiving` hands back.
    pub open spec fn receiving_update(
        self,
        received_obj: usize,
        total_obj: usize,
        received_bytes: usize,
        now: u128,
        index: usize,
    ) -> ReceivingUpdate {
        let throughput = self.throughput_at(received_bytes, now);
        let report = ReceivingReport {
            index,
            percent: percent_of(received_obj as nat, total_obj as nat) as usize,
            received: received_obj,
            total: total_obj,
            size: ScaledAmount {
                amount: received_bytes as u128,
                unit: unit_for(received_bytes as nat),
            },
            speed: ScaledAmount { amount: throughput as u128, unit: unit_for(throughput) },
            done: received_obj == total_obj,
        };
        if self.due_at(now) && received_obj < total_obj {
            ReceivingUpdate { next_index: index, report: Some(report) }
        } else if received_obj == total_obj {
            ReceivingUpdate { next_index: (index + 1) as usize, report: Some(report) }
        } else {
            ReceivingUpdate { next_index: index, report: None }
        }
    }

    /// Takes the counters of the receiving phase at time `now`.
    ///
    /// The throughput is measured anew where 500 ms have passed since it was
    /// last measured. While objects are missing, a line is due once 100 ms
    /// have passed since the last one, and the index stays. Once every object
    /// is there, the closing line is handed back whatever the time, and the
    /// next index is one more.
    pub fn update_receiving(
        &mut self,
        received_obj: usize,
        total_obj: usize,
        received_bytes: usize,
        now: u128,
        index: usize,
    ) -> (update: ReceivingUpdate)
        requires
            old(self).accepts_receiving(received_obj, total_obj, received_bytes, now, index),
        ensures
            *final(self) == old(self).after_receiving(received_obj, total_obj, received_bytes, now),
            update == old(self).receiving_update(
                received_obj,
                total_obj,
                received_bytes,
                now,
                index,
            ),
    {
        let since_update: u128 = now - self.last_update_time;
        let since_throughput: u128 = now - self.last_throughput_update_time;
        if since_throughput >= THROUGHPUT_INTERVAL_MS {
            let gained: u128 = (received_bytes - self.last_transfered_bytes) as u128;
            self.previous_throughput = gained * 1000 / since_throughput;
            self.last_throughput_update_time = now;
            self.last_transfered_bytes = received_bytes;
        }
        if received_obj > total_obj || (received_obj < total_obj && since_update
            < UPDATE_INTERVAL_MS) {
            return ReceivingUpdate { next_index: index, report: None };
        }
        let (speed, _) = give_speed(self.previous_throughput);
        let (size, _) = give_data_transfer(received_bytes);
        let percent: u128 = 100 * (received_obj as u128) / (total_obj as u128);
        assert(percent <= 100) by (nonlinear_arith)
            requires
                percent == 100 * (received_obj as int) / (total_obj as int),
                received_obj <= total_obj,
                total_obj > 0,
        ;
        let done = received_obj == total_obj;
        let report = ReceivingReport {
            index,
            percent: percent as usize,
            received: received_obj,
            total: total_obj,
            size,
            speed,
            done,
        };
        if done {
            ReceivingUpdate { next_index: index + 1, report: Some(report) }
        } else {
            self.last_update_time = now;
            ReceivingUpdate { next_index: index, report: Some(report) }
        }
    }

    /// The inputs that `update_resolving` takes: the clock has not gone back,
    /// and a phase that is complete has room for one more index.
    pub open spec fn accepts_resolving(
        self,
        indexed_deltas: usize,
        total_deltas: usize,
        now: u128,
        index: usize,
    ) -> bool {
        &&& now >= self.last_update_time
        &&& total_deltas > 0 && indexed_deltas == total_deltas ==> index < usize::MAX
    }

    /// Tells whether `update_resolving` takes these inputs.
    pub fn can_resolve(
        &self,
        indexed_deltas: usize,
        total_deltas: usize,
        now: u128,
        index: usize,
    ) -> (accepted: bool)
        ensures
            accepted == self.accepts_resolving(indexed_deltas, total_deltas, now, index),
    {
        now >= self.last_update_time && (total_deltas == 0 || indexed_deltas != total_deltas
            || index < usize::MAX)
    }

    /// Whether a call of `update_resolving` hands back a line.
    pub open spec fn resolving_shows(self, indexed_deltas: usize, total_deltas: usize, now: u128)
        -> bool {
        total_deltas > 0 && (indexed_deltas == total_deltas || (indexed_deltas < total_deltas
            && self.due_at(now)))
    }

    /// The state after a call of `update_resolving`.
    pub open spec fn after_resolving(self, indexed_deltas: usize, total_deltas: usize, now: u128)
        -> ProgressCallbackHelper {
        ProgressCallbackHelper {
            last_update_time: if self.resolving_shows(indexed_deltas, total_deltas, now) {
                now
            } else {
                self.last_update_time
            },
            ..self
        }
    }

    /// What a call of `update_resolving` hands back.
    pub open spec fn resolving_update(
        self,
        indexed_deltas: usize,
        total_deltas: usize,
        now: u128,
        index: usize,
    ) -> ResolvingUpdate {
        if self.resolving_shows(indexed_deltas, total_deltas, now) {
            let done = indexed_deltas == total_deltas;
            ResolvingUpdate {
                next_index: if done {
                    (index + 1) as usize
                } else {
                    index
                },
                report: Some(
                    ResolvingReport {
                        index,
                        percent: percent_of(indexed_deltas as nat, total_deltas as nat) as usize,
                        indexed: indexed_deltas,
                        total: total_deltas,
                        done,
                    },
                ),
            }
        } else {
            ResolvingUpdate { next_index: index, report: None }
        }
    }

    /// Takes the counters of the resolving phase at time `now`.
    ///
    /// With no deltas at all nothing is shown. While deltas are missing, a
    /// line is due once 100 ms have passed since the last one, and the index
    /// stays. Once every delta is resolved, the closing line is handed back
    /// whatever the time, and the next index is one more.
    pub fn update_resolving(
        &mut self,
        indexed_deltas: usize,
        total_deltas: usize,
        now: u128,
        index: usize,
    ) -> (update: ResolvingUpdate)
        requires
            old(self).accepts_resolving(indexed_deltas, total_deltas, now, index),
        ensures
            *final(self) == old(self).after_resolving(indexed_deltas, total_deltas, now),
            update == old(self).resolving_update(indexed_deltas, total_deltas, now, index),
    {
        let since_update: u128 = now - self.last_update_time;
        if total_deltas == 0 || indexed_deltas > total_deltas || (indexed_deltas < total_deltas
            && since_update < UPDATE_INTERVAL_MS) {
            return ResolvingUpdate { next_index: index, report: None };
        }
        self.last_update_time = now;
        let percent: u128 = (indexed_deltas as u128) * 100 / (total_deltas as u128);
        assert(percent <= 100) by (nonlinear_arith)
            requires
                percent == (indexed_deltas as int) * 100 / (total_deltas as int),
                indexed_deltas <= total_deltas,
                total_deltas > 0,
        ;
        let done = indexed_deltas == total_deltas;
        let report = ResolvingReport {
            index,
            percent: percent as usize,
            indexed: indexed_deltas,
            total: total_deltas,
            done,
        };
        ResolvingUpdate {
            next_index: if done {
                index + 1
            } else {
                index
            },
            report: Some(report),
        }
    }
}

impl ReceivingReport {
    /// The line's text, given the two numbers with decimals as they are to
    /// be shown: the amount of data and the throughput, each in its unit.
    pub open spec fn spec_render(self, size_number: Seq<char>, speed_number: Seq<char>) -> Seq<
        char,
    > {
        "Receiving objects: "@ + decimal(self.percent as nat) + "% ("@ + decimal(
            self.received as nat,
        ) + "/"@ + decimal(self.total as nat) + "), "@ + size_number + " "@
            + self.size.unit.spec_size_label() + " | "@ + speed_number + " "@
            + self.speed.unit.spec_speed_label() + if self.done {
            ", done."@
        } else {
            Seq::<char>::empty()
        }
    }

    /// Writes the line out. `size_number` and `speed_number` are the amount
    /// of data and the throughput, each divided by its unit's size, as text.
    pub fn render(&self, size_number: &str, speed_number: &str) -> (line: String)
        ensures
            line@ == self.spec_render(size_number@, speed_number@),
    {
        let mut line = String::from_str("Receiving objects: ");
        append_decimal(&mut line, self.percent as u128);
        line.append("% (");
        append_decimal(&mut line, self.received as u128);
        line.append("/");
        append_decimal(&mut line, self.total as u128);
        line.append("), ");
        line.append(size_number);
        line.append(" ");
        line.append(self.size.unit.size_label());
        line.append(" | ");
        line.append(speed_number);
        line.append(" ");
        line.append(self.speed.unit.speed_label());
        if self.done {
            line.append(", done.");
        }
        assert(line@ =~= self.spec_render(size_number@, speed_number@));
        line
    }
}

impl ResolvingReport {
    /// The line's text.
    pub open spec fn spec_render(self) -> Seq<char> {
        "Resolving deltas: "@ + decimal(self.percent as nat) + "% ("@ + decimal(
            self.indexed as nat,
        ) + "/"@ + decimal(self.total as nat) + ")"@ + if self.done {
            ", done."@
        } else {
            Seq::<char>::empty()
        }
    }

    /// Writes the line out.
    pub fn render(&self) -> (line: String)
        ensures
            line@ == self.spec_render(),
    {
        let mut line = String::from_str("Resolving deltas: ");
        append_decimal(&mut line, self.percent as u128);
        line.append("% (");
        append_decimal(&mut line, self.indexed as u128);
        line.append("/");
        append_decimal(&mut line, self.total as u128);
        line.append(")");
        if self.done {
            line.append(", done.");
        }
        assert(line@ =~= self.spec_render());
        line
    }
}

/// The closing line of the receiving phase is never dropped: once every
/// object is there it is handed back whatever the clock says and however
/// many earlier calls were held back, under the index that the call was
/// given, at 100%, and the index moves on by one.
pub proof fn lemma_receiving_completion_shown(
    h: ProgressCallbackHelper,
    total_obj: usize,
    received_bytes: usize,
    now: u128,
    index: usize,
)
    requires
        h.accepts_receiving(total_obj, total_obj, received_bytes, now, index),
    ensures
        h.receiving_update(total_obj, total_obj, received_bytes, now, index).next_index == index
            + 1,
        h.receiving_update(total_obj, total_obj, received_bytes, now, index).report matches Some(
            r,
        ) && r.done && r.index == index && r.percent == 100 && r.received == total_obj && r.total
            == total_obj,
{
    assert(percent_of(total_obj as nat, total_obj as nat) == 100) by (nonlinear_arith)
        requires
            total_obj > 0,
    ;
}

/// While objects are missing no line closes the phase and the index stays:
/// every line of the phase before the closing one carries the same index as
/// the closing one.
pub proof fn lemma_receiving_open_keeps_index(
    h: ProgressCallbackHelper,
    received_obj: usize,
    total_obj: usize,
    received_bytes: usize,
    now: u128,
    index: usize,
)
    requires
        received_obj != total_obj,
    ensures
        h.receiving_update(received_obj, total_obj, received_bytes, now, index).next_index
            == index,
        h.receiving_update(received_obj, total_obj, received_bytes, now, index).report matches Some(
            r,
        ) ==> !r.done && r.index == index,
        h.receiving_update(received_obj, total_obj, received_bytes, now, index).report is Some
            <==> received_obj < total_obj && h.due_at(now),
{
}

/// A call less than 500 ms after the throughput was measured shows that same
/// throughput and leaves it in place.
pub proof fn lemma_throughput_kept_between_samples(
    h: ProgressCallbackHelper,
    received_obj: usize,
    total_obj: usize,
    received_bytes: usize,
    now: u128,
    index: usize,
)
    requires
        now - h.last_throughput_update_time < THROUGHPUT_INTERVAL_MS,
    ensures
        h.after_receiving(received_obj, total_obj, received_bytes, now).previous_throughput
            == h.previous_throughput,
        h.after_receiving(
            received_obj,
            total_obj,
            received_bytes,
            now,
        ).last_throughput_update_time == h.last_throughput_update_time,
        h.receiving_update(received_obj, total_obj, received_bytes, now, index).report matches Some(
            r,
        ) ==> r.speed.amount == h.previous_throughput,
{
}

/// Of two calls in a row, the first of which measures the throughput and the
/// second of which comes less than 500 ms later, the second shows the
/// throughput that the first one measured, whatever bytes have come since.
pub proof fn lemma_throughput_same_within_window(
    h: ProgressCallbackHelper,
    received_obj1: usize,
    total_obj1: usize,
    received_bytes1: usize,
    now1: u128,
    received_obj2: usize,
    total_obj2: usize,
    received_bytes2: usize,
    now2: u128,
    index: usize,
)
    requires
        h.accepts_receiving(received_obj1, total_obj1, received_bytes1, now1, index),
        h.samples_at(now1),
        now1 <= now2,
        now2 - now1 < THROUGHPUT_INTERVAL_MS,
    ensures
        ({
            let h1 = h.after_receiving(received_obj1, total_obj1, received_bytes1, now1);
            let h2 = h1.after_receiving(received_obj2, total_obj2, received_bytes2, now2);
            let shown = h1.receiving_update(
                received_obj2,
                total_obj2,
                received_bytes2,
                now2,
                index,
            ).report;
            &&& h1.previous_throughput == h.throughput_at(received_bytes1, now1)
            &&& h2.previous_throughput == h1.previous_throughput
            &&& shown matches Some(r) ==> r.speed.amount == h1.previous_throughput
        }),
{
    let gained = (received_bytes1 - h.last_transfered_bytes) as int;
    let elapsed = (now1 - h.last_throughput_update_time) as int;
    assert(0 <= gained * 1000 / elapsed <= gained * 1000) by (nonlinear_arith)
        requires
            gained >= 0,
            elapsed >= 500,
    ;
}

} // verus!
