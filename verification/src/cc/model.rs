//! The controller as mathematics: its state as unbounded integers, and each
//! event as a function from one state to the next. The executable controller
//! is proved to follow these functions step for step.

use vstd::prelude::*;
use crate::cc::packet::SentPacket;
use crate::cc::persistent::persistent_congestion;
use crate::cc::pmtud::{Pmtud, CWND_INITIAL_PKTS};
use crate::cc::state::ControllerState;
use crate::cc::time::{Duration, Instant};
use crate::cc::window::WindowGrowthStrategy;

verus! {

/// Datagrams that the pacer may release in one burst. A sender within one
/// burst of its window is using the window in full.
pub const PACING_BURST_SIZE: usize = 2;

/// The initial window is never taken smaller than this many bytes, datagram
/// size permitting.
pub const CWND_INITIAL_BYTES: usize = 14_720;

pub open spec fn int_min(a: int, b: int) -> int {
    if a <= b {
        a
    } else {
        b
    }
}

pub open spec fn int_max(a: int, b: int) -> int {
    if a >= b {
        a
    } else {
        b
    }
}

/// `a - b`, but never below zero.
pub open spec fn minus_to_zero(a: int, b: int) -> int {
    int_max(0, a - b)
}

/// The window that a path with datagrams of `mtu` bytes starts with.
pub open spec fn cwnd_initial_spec(mtu: int) -> int {
    int_min(CWND_INITIAL_PKTS * mtu, int_max(2 * mtu, CWND_INITIAL_BYTES as int))
}

/// Bytes of the packets in `pkts` that count against the window.
pub open spec fn in_flight_bytes(pkts: Seq<SentPacket>) -> int
    decreases pkts.len(),
{
    if pkts.len() == 0 {
        0
    } else {
        in_flight_bytes(pkts.drop_last()) + if pkts.last().in_flight {
            pkts.last().len as int
        } else {
            0
        }
    }
}

/// The packets of `pkts` that are not probes for a larger datagram size, in
/// their order.
pub open spec fn without_probes(pmtud: Pmtud, pkts: Seq<SentPacket>) -> Seq<SentPacket>
    decreases pkts.len(),
{
    if pkts.len() == 0 {
        pkts
    } else if pmtud.is_probe_spec(pkts.last()) {
        without_probes(pmtud, pkts.drop_last())
    } else {
        without_probes(pmtud, pkts.drop_last()).push(pkts.last())
    }
}

/// State of a congestion controller that runs strategy `S`.
pub struct ControllerModel<S> {
    pub strategy: S,
    pub state: ControllerState,
    /// Congestion window in bytes.
    pub cwnd: int,
    /// Bytes sent and neither acknowledged, lost nor discarded.
    pub bytes_in_flight: int,
    /// Acknowledged bytes saved up towards the next increase.
    pub acked_bytes: int,
    /// Window size at which slow start ends.
    pub ssthresh: int,
    /// Number of the first packet sent after the last congestion event.
    pub recovery_start: Option<int>,
    /// Packets numbered below this were sent while the window was in full use.
    pub first_app_limited: int,
    pub pmtud: Pmtud,
}

impl<S: WindowGrowthStrategy> ControllerModel<S> {
    /// What holds of every controller at all times: the datagram size is
    /// sound, the window is at or above its floor, and neither the bytes in
    /// flight nor the credit are negative.
    pub open spec fn inv(self) -> bool {
        &&& self.pmtud.wf()
        &&& self.cwnd >= self.cwnd_min()
        &&& self.bytes_in_flight >= 0
        &&& self.acked_bytes >= 0
    }

    pub open spec fn max_datagram_size(self) -> int {
        self.pmtud.mtu as int
    }

    /// The floor of the window: two datagrams.
    pub open spec fn cwnd_min(self) -> int {
        2 * self.max_datagram_size()
    }

    /// Bytes that may still be sent.
    pub open spec fn cwnd_available(self) -> int {
        minus_to_zero(self.cwnd, self.bytes_in_flight)
    }

    /// A controller for a fresh path.
    pub open spec fn initial(strategy: S, pmtud: Pmtud) -> Self {
        ControllerModel {
            strategy,
            state: ControllerState::SlowStart,
            cwnd: cwnd_initial_spec(pmtud.mtu as int),
            bytes_in_flight: 0,
            acked_bytes: 0,
            ssthresh: usize::MAX as int,
            recovery_start: None,
            first_app_limited: 0,
            pmtud,
        }
    }

    /// The sender has less to send than the window allows.
    ///
    /// With the window full it is not limited. In slow start the window may
    /// double within a round trip, so half a window in flight counts as full
    /// use. Otherwise the sender is limited when more than one pacing burst
    /// would still fit.
    pub open spec fn app_limited(self) -> bool {
        if self.bytes_in_flight >= self.cwnd {
            false
        } else if self.state == ControllerState::SlowStart {
            self.bytes_in_flight < self.cwnd / 2
        } else {
            self.bytes_in_flight + self.max_datagram_size() * PACING_BURST_SIZE < self.cwnd
        }
    }

    /// `p` belongs to the present epoch: the state is settled, and `p` was
    /// not sent before the recovery period began.
    pub open spec fn after_recovery_start(self, p: SentPacket) -> bool {
        !self.state.transient_spec() && match self.recovery_start {
            Some(pn) => p.pn >= pn,
            None => true,
        }
    }

    /// The counters have room for packet `p` when it is sent: its number
    /// has a successor, and the bytes in flight with it added can be counted.
    pub open spec fn sendable(self, p: SentPacket) -> bool {
        p.in_flight ==> p.pn < u64::MAX && self.bytes_in_flight + p.len <= usize::MAX
    }

    /// The counters have room for all the growth that the acknowledgement
    /// of `pkts` may bring: the window, the credit, two datagrams and twice
    /// the bytes acknowledged can be counted together.
    pub open spec fn ackable(self, pkts: Seq<SentPacket>) -> bool {
        self.cwnd + self.acked_bytes + 2 * in_flight_bytes(pkts) + 2 * self.max_datagram_size()
            <= usize::MAX
    }

    /// The controller after packet `p` was sent.
    pub open spec fn sent(self, p: SentPacket) -> Self {
        let settled = if self.state.transient_spec() {
            ControllerModel { recovery_start: Some(p.pn as int), state: self.state.resolved(), ..self }
        } else {
            self
        };
        if !p.in_flight {
            settled
        } else {
            ControllerModel {
                first_app_limited: if settled.app_limited() {
                    settled.first_app_limited
                } else {
                    p.pn + 1
                },
                bytes_in_flight: settled.bytes_in_flight + p.len,
                ..settled
            }
        }
    }

    /// The controller after the strategy asked for window `cwnd` and credit
    /// `acked_bytes` on congestion: the floor is applied, slow start ends at
    /// the new window, and a recovery period is due.
    pub open spec fn reduced(self, cwnd: int, acked_bytes: int) -> Self {
        let cwnd = int_max(cwnd, self.cwnd_min());
        ControllerModel { cwnd, acked_bytes, ssthresh: cwnd, state: ControllerState::RecoveryStart, ..self }
    }

    /// The controller after congestion was signalled for packet `p`, and
    /// whether the signal counted. A packet from before the present epoch
    /// changes nothing.
    pub open spec fn congestion_event(self, p: SentPacket) -> (Self, bool) {
        if !self.after_recovery_start(p) {
            (self, false)
        } else {
            let (strategy, cwnd, acked_bytes) = self.strategy.reduce_step(
                self.cwnd,
                self.acked_bytes,
                self.max_datagram_size(),
            );
            (ControllerModel { strategy, ..self }.reduced(cwnd as int, acked_bytes as int), true)
        }
    }

    /// The controller after persistent congestion was found: the window and
    /// the credit fall to their floors.
    pub open spec fn collapsed(self) -> Self {
        ControllerModel {
            cwnd: self.cwnd_min(),
            acked_bytes: 0,
            state: ControllerState::PersistentCongestion,
            ..self
        }
    }

    /// The acknowledgement of `p` may grow the window.
    pub open spec fn credits(self, p: SentPacket) -> bool {
        p.in_flight && self.after_recovery_start(p)
    }

    /// Bytes of the packets in `pkts` whose acknowledgement may grow the
    /// window.
    pub open spec fn credited_bytes(self, pkts: Seq<SentPacket>) -> int
        decreases pkts.len(),
    {
        if pkts.len() == 0 {
            0
        } else {
            self.credited_bytes(pkts.drop_last()) + if self.credits(pkts.last()) {
                pkts.last().len as int
            } else {
                0
            }
        }
    }

    pub open spec fn any_credited(self, pkts: Seq<SentPacket>) -> bool {
        exists|i: int| 0 <= i < pkts.len() && self.credits(#[trigger] pkts[i])
    }

    /// Some packet of `pkts` counted against the window and was sent while
    /// the window was in full use. Only then may acknowledgements grow it.
    pub open spec fn window_was_used(self, pkts: Seq<SentPacket>) -> bool {
        exists|i: int|
            0 <= i < pkts.len() && (#[trigger] pkts[i]).in_flight && pkts[i].pn < self.first_app_limited
    }

    /// The controller after the packets `pkts` left the network by being
    /// acknowledged, before the window is considered: they are no longer in
    /// flight, and a recovery period ends when one of them belongs to the
    /// present epoch.
    pub open spec fn drained_by_ack(self, pkts: Seq<SentPacket>) -> Self {
        ControllerModel {
            bytes_in_flight: minus_to_zero(self.bytes_in_flight, in_flight_bytes(pkts)),
            state: if self.state.in_recovery_spec() && self.any_credited(pkts) {
                ControllerState::CongestionAvoidance
            } else {
                self.state
            },
            ..self
        }
    }

    /// Growth below the threshold: the window takes every byte of credit, up
    /// to the threshold, and slow start is over when it gets there.
    pub open spec fn slow_start_grown(self, new_acked: int) -> Self {
        if self.cwnd < self.ssthresh {
            let credit = self.acked_bytes + new_acked;
            let increase = int_min(self.ssthresh - self.cwnd, credit);
            ControllerModel {
                cwnd: self.cwnd + increase,
                acked_bytes: credit - increase,
                state: if self.cwnd + increase == self.ssthresh {
                    ControllerState::CongestionAvoidance
                } else {
                    self.state
                },
                ..self
            }
        } else {
            self
        }
    }

    /// Growth at or above the threshold, where `needed` bytes of credit buy
    /// one datagram of window. Credit saved up earlier buys at most one
    /// datagram, credit with the new bytes added at most one more, and no
    /// more than `needed` is kept for later.
    pub open spec fn avoidance_grown(self, new_acked: int, needed: int) -> Self {
        let mds = self.max_datagram_size();
        let (cwnd1, credit1) = if self.acked_bytes >= needed {
            (self.cwnd + mds, 0int)
        } else {
            (self.cwnd, self.acked_bytes)
        };
        let credit2 = credit1 + new_acked;
        let (cwnd3, credit3) = if credit2 >= needed {
            (cwnd1 + mds, credit2 - needed)
        } else {
            (cwnd1, credit2)
        };
        ControllerModel { cwnd: cwnd3, acked_bytes: int_min(needed, credit3), ..self }
    }

    /// The controller after `new_acked` bytes were credited to the window.
    pub open spec fn grown(self, new_acked: int, min_rtt: Duration, now: Instant) -> Self {
        let a = self.slow_start_grown(new_acked);
        if a.cwnd >= a.ssthresh {
            let (strategy, needed) = a.strategy.increase_step(
                a.cwnd,
                new_acked,
                min_rtt,
                a.max_datagram_size(),
                now,
            );
            ControllerModel { strategy, ..a }.avoidance_grown(new_acked, needed as int)
        } else {
            a
        }
    }

    /// The controller after the packets `pkts` were acknowledged.
    pub open spec fn acked(self, pkts: Seq<SentPacket>, min_rtt: Duration, now: Instant) -> Self {
        let drained = self.drained_by_ack(pkts);
        if self.window_was_used(pkts) {
            drained.grown(self.credited_bytes(pkts), min_rtt, now)
        } else {
            ControllerModel { strategy: drained.strategy.app_limited_step(), ..drained }
        }
    }

    /// The controller after the packets `pkts` were declared lost, and
    /// whether the window was reduced.
    ///
    /// All of them leave the count of bytes in flight. Probes for a larger
    /// datagram size are then set aside. The last of the others is a
    /// congestion signal, and the others together are examined for
    /// persistent congestion.
    pub open spec fn lost(
        self,
        first_rtt_sample_time: Option<Instant>,
        prev_largest_acked_sent: Option<Instant>,
        pto: Duration,
        pkts: Seq<SentPacket>,
    ) -> (Self, bool) {
        let drained = ControllerModel {
            bytes_in_flight: minus_to_zero(self.bytes_in_flight, in_flight_bytes(pkts)),
            ..self
        };
        let signals = without_probes(self.pmtud, pkts);
        if signals.len() == 0 {
            (drained, false)
        } else {
            let (reacted, congestion) = drained.congestion_event(signals.last());
            let persistent = persistent_congestion(
                first_rtt_sample_time,
                prev_largest_acked_sent,
                pto,
                signals,
            );
            (
                if persistent {
                    reacted.collapsed()
                } else {
                    reacted
                },
                congestion || persistent,
            )
        }
    }

    /// The controller after packet `p` was given up without being lost.
    pub open spec fn discarded(self, p: SentPacket) -> Self {
        if p.in_flight {
            ControllerModel { bytes_in_flight: minus_to_zero(self.bytes_in_flight, p.len as int), ..self }
        } else {
            self
        }
    }

    /// The controller after everything in flight was given up.
    pub open spec fn path_discarded(self) -> Self {
        ControllerModel { bytes_in_flight: 0, ..self }
    }
}

/// Adding one packet at the end of `pkts` adds its bytes if it is in flight.
pub proof fn lemma_in_flight_bytes_step(pkts: Seq<SentPacket>, i: int)
    requires
        0 <= i < pkts.len(),
    ensures
        in_flight_bytes(pkts.take(i + 1)) == in_flight_bytes(pkts.take(i)) + if pkts[i].in_flight {
            pkts[i].len as int
        } else {
            0
        },
        in_flight_bytes(pkts.take(i)) >= 0,
        in_flight_bytes(pkts.take(i + 1)) <= in_flight_bytes(pkts),
    decreases pkts.len() - i,
{
    assert(pkts.take(i + 1).drop_last() =~= pkts.take(i));
    lemma_in_flight_bytes_nonnegative(pkts.take(i));
    if i + 1 == pkts.len() {
        assert(pkts.take(i + 1) =~= pkts);
    } else {
        lemma_in_flight_bytes_step(pkts, i + 1);
    }
}

/// Bytes in flight are never negative.
pub proof fn lemma_in_flight_bytes_nonnegative(pkts: Seq<SentPacket>)
    ensures
        in_flight_bytes(pkts) >= 0,
    decreases pkts.len(),
{
    if pkts.len() > 0 {
        lemma_in_flight_bytes_nonnegative(pkts.drop_last());
    }
}

/// Bytes credited are among the bytes in flight.
pub proof fn lemma_credited_bytes_step<S: WindowGrowthStrategy>(
    m: ControllerModel<S>,
    pkts: Seq<SentPacket>,
    i: int,
)
    requires
        0 <= i < pkts.len(),
    ensures
        m.credited_bytes(pkts.take(i + 1)) == m.credited_bytes(pkts.take(i)) + if m.credits(pkts[i]) {
            pkts[i].len as int
        } else {
            0
        },
        0 <= m.credited_bytes(pkts.take(i)) <= in_flight_bytes(pkts.take(i)),
    decreases i,
{
    assert(pkts.take(i + 1).drop_last() =~= pkts.take(i));
    if i > 0 {
        lemma_credited_bytes_step(m, pkts, i - 1);
        lemma_in_flight_bytes_step(pkts, i - 1);
    }
}

/// Adding one packet at the end of `pkts` adds it to the packets that are
/// not probes, unless it is one.
pub proof fn lemma_without_probes_step(pmtud: Pmtud, pkts: Seq<SentPacket>, i: int)
    requires
        0 <= i < pkts.len(),
    ensures
        without_probes(pmtud, pkts.take(i + 1)) == if pmtud.is_probe_spec(pkts[i]) {
            without_probes(pmtud, pkts.take(i))
        } else {
            without_probes(pmtud, pkts.take(i)).push(pkts[i])
        },
{
    assert(pkts.take(i + 1).drop_last() =~= pkts.take(i));
}

/// Bytes credited are never negative.
pub proof fn lemma_credited_bytes_nonnegative<S: WindowGrowthStrategy>(
    m: ControllerModel<S>,
    pkts: Seq<SentPacket>,
)
    ensures
        m.credited_bytes(pkts) >= 0,
    decreases pkts.len(),
{
    if pkts.len() > 0 {
        lemma_credited_bytes_nonnegative(m, pkts.drop_last());
    }
}

} // verus!
