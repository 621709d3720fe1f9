//! The controller itself: the window, the bytes in flight, and the reaction
//! to each event in the life of a packet.

use vstd::prelude::*;
use crate::cc::model::{
    cwnd_initial_spec, in_flight_bytes, lemma_credited_bytes_step, lemma_in_flight_bytes_nonnegative,
    lemma_in_flight_bytes_step, lemma_without_probes_step, minus_to_zero, without_probes,
    ControllerModel, CWND_INITIAL_BYTES, PACING_BURST_SIZE,
};
use crate::cc::packet::SentPacket;
use crate::cc::persistent::{cutoff, persistent_congestion, scan_for_congested_run, sorted_by_time};
use crate::cc::pmtud::{Pmtud, CWND_INITIAL_PKTS};
use crate::cc::state::ControllerState;
use crate::cc::time::{Duration, Instant};
use crate::cc::window::WindowGrowthStrategy;

verus! {

/// The window that a path with datagrams of `mtu` bytes starts with: ten
/// datagrams, but no more than 14720 bytes unless two datagrams are more.
pub fn cwnd_initial(mtu: usize) -> (r: usize)
    requires
        mtu * CWND_INITIAL_PKTS <= usize::MAX,
    ensures
        r == cwnd_initial_spec(mtu as int),
{
    let by_count: usize = CWND_INITIAL_PKTS * mtu;
    let floor: usize = 2 * mtu;
    let by_bytes: usize = if floor >= CWND_INITIAL_BYTES {
        floor
    } else {
        CWND_INITIAL_BYTES
    };
    if by_count <= by_bytes {
        by_count
    } else {
        by_bytes
    }
}

/// A congestion controller for one path, running strategy `S`.
#[derive(Clone, Debug, PartialEq, Eq)]
pub struct CongestionController<S> {
    strategy: S,
    state: ControllerState,
    congestion_window: usize,
    bytes_in_flight: usize,
    acked_bytes: usize,
    ssthresh: usize,
    recovery_start: Option<u64>,
    first_app_limited: u64,
    pmtud: Pmtud,
}

impl<S: WindowGrowthStrategy> View for CongestionController<S> {
    type V = ControllerModel<S>;

    closed spec fn view(&self) -> ControllerModel<S> {
        ControllerModel {
            strategy: self.strategy,
            state: self.state,
            cwnd: self.congestion_window as int,
            bytes_in_flight: self.bytes_in_flight as int,
            acked_bytes: self.acked_bytes as int,
            ssthresh: self.ssthresh as int,
            recovery_start: match self.recovery_start {
                Some(pn) => Some(pn as int),
                None => None,
            },
            first_app_limited: self.first_app_limited as int,
            pmtud: self.pmtud,
        }
    }
}

impl<S: WindowGrowthStrategy> CongestionController<S> {
    /// The controller is in a state that its own operations can bring about.
    pub closed spec fn wf(&self) -> bool {
        self@.inv()
    }

    /// A well-formed controller keeps the invariants of its model, and its
    /// counters are machine integers.
    pub proof fn lemma_wf(&self)
        requires
            self.wf(),
        ensures
            self@.inv(),
            0 <= self@.cwnd <= usize::MAX,
            0 <= self@.bytes_in_flight <= usize::MAX,
            0 <= self@.acked_bytes <= usize::MAX,
            0 <= self@.ssthresh <= usize::MAX,
            0 <= self@.first_app_limited <= u64::MAX,
    {
    }

    /// A controller for a fresh path: in slow start, with the initial window
    /// and nothing in flight.
    pub fn new(strategy: S, pmtud: Pmtud) -> (r: Self)
        requires
            pmtud.wf(),
        ensures
            r.wf(),
            r@ == ControllerModel::initial(strategy, pmtud),
    {
        CongestionController {
            strategy,
            state: ControllerState::SlowStart,
            congestion_window: cwnd_initial(pmtud.plpmtu()),
            bytes_in_flight: 0,
            acked_bytes: 0,
            ssthresh: usize::MAX,
            recovery_start: None,
            first_app_limited: 0,
            pmtud,
        }
    }

    pub fn max_datagram_size(&self) -> (r: usize)
        ensures
            r == self@.max_datagram_size(),
    {
        self.pmtud.plpmtu()
    }

    /// The congestion window in bytes.
    pub fn cwnd(&self) -> (r: usize)
        ensures
            r == self@.cwnd,
            self.wf() ==> r >= self@.cwnd_min(),
    {
        self.congestion_window
    }

    /// Bytes sent and not yet acknowledged, lost or discarded.
    pub fn bytes_in_flight(&self) -> (r: usize)
        ensures
            r == self@.bytes_in_flight,
            self@.bytes_in_flight >= 0,
    {
        self.bytes_in_flight
    }

    /// Bytes that may still be sent. Probes may take the bytes in flight
    /// past the window; nothing is available then.
    pub fn cwnd_available(&self) -> (r: usize)
        ensures
            r == self@.cwnd_available(),
    {
        self.congestion_window.saturating_sub(self.bytes_in_flight)
    }

    /// The floor of the window: two datagrams.
    pub fn cwnd_min(&self) -> (r: usize)
        requires
            self.wf(),
        ensures
            r == self@.cwnd_min(),
    {
        self.pmtud.plpmtu() * 2
    }

    pub fn cwnd_initial(&self) -> (r: usize)
        requires
            self.wf(),
        ensures
            r == cwnd_initial_spec(self@.max_datagram_size()),
    {
        cwnd_initial(self.pmtud.plpmtu())
    }

    pub fn ssthresh(&self) -> (r: usize)
        ensures
            r == self@.ssthresh,
    {
        self.ssthresh
    }

    pub fn acked_bytes(&self) -> (r: usize)
        ensures
            r == self@.acked_bytes,
    {
        self.acked_bytes
    }

    pub fn state(&self) -> (r: ControllerState)
        ensures
            r == self@.state,
    {
        self.state
    }

    pub fn recovery_start(&self) -> (r: Option<u64>)
        ensures
            r.is_some() == self@.recovery_start.is_some(),
            r.is_some() ==> r.unwrap() == self@.recovery_start.unwrap(),
    {
        self.recovery_start
    }

    pub fn first_app_limited(&self) -> (r: u64)
        ensures
            r == self@.first_app_limited,
    {
        self.first_app_limited
    }

    pub fn pmtud(&self) -> (r: &Pmtud)
        ensures
            *r == self@.pmtud,
    {
        &self.pmtud
    }

    /// Whether the next packet may go out at once because a recovery period
    /// is about to begin.
    pub fn is_recovery_packet(&self) -> (r: bool)
        ensures
            r == (self@.state == ControllerState::RecoveryStart),
    {
        self.state == ControllerState::RecoveryStart
    }

    /// Records that a probe of `size` bytes for a larger datagram size is
    /// out. Its loss will not count as congestion.
    pub fn start_probe(&mut self, size: usize)
        ensures
            final(self)@ == (ControllerModel {
                pmtud: Pmtud { probe_size: Some(size), ..old(self)@.pmtud },
                ..old(self)@
            }),
            old(self).wf() ==> final(self).wf(),
    {
        self.pmtud.start_probe(size);
    }

    /// Records that no probe is out any more.
    pub fn stop_probe(&mut self)
        ensures
            final(self)@ == (ControllerModel {
                pmtud: Pmtud { probe_size: None, ..old(self)@.pmtud },
                ..old(self)@
            }),
            old(self).wf() ==> final(self).wf(),
    {
        self.pmtud.stop_probe();
    }

    fn set_state(&mut self, state: ControllerState)
        ensures
            final(self)@ == (ControllerModel { state, ..old(self)@ }),
    {
        if self.state != state {
            self.state = state;
        }
    }

    pub fn app_limited(&self) -> (r: bool)
        requires
            self.wf(),
        ensures
            r == self@.app_limited(),
    {
        if self.bytes_in_flight >= self.congestion_window {
            false
        } else if self.state.in_slow_start() {
            self.bytes_in_flight < self.congestion_window / 2
        } else {
            // The window is at least two datagrams, so this cannot overflow
            // where the sum on the other side could.
            self.congestion_window - self.bytes_in_flight > self.pmtud.plpmtu() * PACING_BURST_SIZE
        }
    }

    pub fn after_recovery_start(&self, packet: &SentPacket) -> (r: bool)
        ensures
            r == self@.after_recovery_start(*packet),
    {
        !self.state.transient() && match self.recovery_start {
            Some(pn) => packet.pn >= pn,
            None => true,
        }
    }

    /// Whether `on_packet_sent` may be called for `pkt`.
    pub fn can_send(&self, pkt: &SentPacket) -> (r: bool)
        ensures
            r == self@.sendable(*pkt),
    {
        !pkt.in_flight || (pkt.pn < u64::MAX && pkt.len <= usize::MAX - self.bytes_in_flight)
    }

    /// Whether `on_packets_acked` may be called for `acked_pkts`.
    pub fn can_ack(&self, acked_pkts: &[SentPacket]) -> (r: bool)
        requires
            self.wf(),
        ensures
            r == self@.ackable(acked_pkts@),
    {
        let mds: usize = self.pmtud.plpmtu();
        // Twice the datagram size fits, so this is what is left for the rest.
        let fixed: usize = 2 * mds;
        if self.congestion_window > usize::MAX - fixed {
            proof {
                lemma_in_flight_bytes_nonnegative(acked_pkts@);
            }
            return false;
        }
        let above_window: usize = usize::MAX - fixed - self.congestion_window;
        if self.acked_bytes > above_window {
            proof {
                lemma_in_flight_bytes_nonnegative(acked_pkts@);
            }
            return false;
        }
        let room: usize = (above_window - self.acked_bytes) / 2;
        let n: usize = acked_pkts.len();
        let mut total: usize = 0;
        let mut i: usize = 0;
        while i < n
            invariant
                i <= n,
                n == acked_pkts@.len(),
                total == in_flight_bytes(acked_pkts@.take(i as int)),
                total <= room,
                room == (usize::MAX - 2 * self@.max_datagram_size() - self@.cwnd - self@.acked_bytes) / 2,
                self@.cwnd + self@.acked_bytes + 2 * self@.max_datagram_size() <= usize::MAX,
            decreases n - i,
        {
            proof {
                lemma_in_flight_bytes_step(acked_pkts@, i as int);
            }
            if acked_pkts[i].in_flight {
                if acked_pkts[i].len > room - total {
                    return false;
                }
                total += acked_pkts[i].len;
            }
            i += 1;
        }
        assert(acked_pkts@.take(n as int) =~= acked_pkts@);
        true
    }

    /// A packet was sent.
    ///
    /// A transient state is settled first, and this packet becomes the start
    /// of the recovery period. A packet that counts against the window joins
    /// the bytes in flight; when the window was in full use just before, all
    /// packets up to this one are taken to have used it fully.
    pub fn on_packet_sent(&mut self, pkt: &SentPacket, now: Instant)
        requires
            old(self).wf(),
            old(self)@.sendable(*pkt),
        ensures
            final(self).wf(),
            final(self)@ == old(self)@.sent(*pkt),
    {
        if self.state.transient() {
            self.recovery_start = Some(pkt.pn);
            self.state.update();
        }
        if !pkt.in_flight {
            return ;
        }
        if !self.app_limited() {
            self.first_app_limited = pkt.pn + 1;
        }
        self.bytes_in_flight += pkt.len;
    }

    /// Takes over the window and the credit that a strategy asked for on
    /// congestion: the window is raised to its floor if need be, slow start
    /// ends at the new window, and a recovery period is due.
    pub fn apply_reduction(&mut self, cwnd: usize, acked_bytes: usize)
        requires
            old(self).wf(),
        ensures
            final(self).wf(),
            final(self)@ == old(self)@.reduced(cwnd as int, acked_bytes as int),
            final(self)@.ssthresh == final(self)@.cwnd,
    {
        let floor: usize = self.cwnd_min();
        self.congestion_window = if cwnd >= floor {
            cwnd
        } else {
            floor
        };
        self.acked_bytes = acked_bytes;
        self.ssthresh = self.congestion_window;
        self.set_state(ControllerState::RecoveryStart);
    }

    /// Congestion was signalled for `last_packet`. Returns whether the signal
    /// counted: a packet sent before the present recovery period began
    /// belongs to congestion that was answered already.
    pub fn on_congestion_event(&mut self, last_packet: &SentPacket, now: Instant) -> (r: bool)
        requires
            old(self).wf(),
        ensures
            final(self).wf(),
            (final(self)@, r) == old(self)@.congestion_event(*last_packet),
            r == old(self)@.after_recovery_start(*last_packet),
            r ==> final(self)@.ssthresh == final(self)@.cwnd && final(self)@.state
                == ControllerState::RecoveryStart,
            !r ==> final(self)@ == old(self)@,
    {
        if !self.after_recovery_start(last_packet) {
            return false;
        }
        let mds: usize = self.max_datagram_size();
        let (cwnd, acked_bytes) = self.strategy.reduce_window(self.congestion_window, self.acked_bytes, mds);
        self.apply_reduction(cwnd, acked_bytes);
        true
    }

    /// The network marked a packet as having met congestion. The reaction is
    /// that to a loss.
    pub fn on_ecn_ce_received(&mut self, largest_acked_pkt: &SentPacket, now: Instant) -> (r: bool)
        requires
            old(self).wf(),
        ensures
            final(self).wf(),
            (final(self)@, r) == old(self)@.congestion_event(*largest_acked_pkt),
            r == old(self)@.after_recovery_start(*largest_acked_pkt),
            r ==> final(self)@.ssthresh == final(self)@.cwnd && final(self)@.state
                == ControllerState::RecoveryStart,
            !r ==> final(self)@ == old(self)@,
    {
        self.on_congestion_event(largest_acked_pkt, now)
    }

    /// Looks for persistent congestion among the lost packets, which are in
    /// the order they were sent. When it is found, the window falls to its
    /// floor. Returns whether it was found.
    pub fn detect_persistent_congestion(
        &mut self,
        first_rtt_sample_time: Option<Instant>,
        prev_largest_acked_sent: Option<Instant>,
        pto: Duration,
        lost_packets: &[SentPacket],
        now: Instant,
    ) -> (r: bool)
        requires
            old(self).wf(),
            sorted_by_time(lost_packets@),
        ensures
            final(self).wf(),
            r == persistent_congestion(first_rtt_sample_time, prev_largest_acked_sent, pto, lost_packets@),
            final(self)@ == if r {
                old(self)@.collapsed()
            } else {
                old(self)@
            },
    {
        let first = match first_rtt_sample_time {
            Some(t) => t,
            None => {
                return false;
            },
        };
        let found = scan_for_congested_run(lost_packets, cutoff(first, prev_largest_acked_sent), pto);
        if found {
            self.congestion_window = self.cwnd_min();
            self.acked_bytes = 0;
            self.set_state(ControllerState::PersistentCongestion);
        }
        found
    }

    /// A packet was given up without being lost: it no longer counts as in
    /// flight, and nothing else changes.
    pub fn discard(&mut self, pkt: &SentPacket, now: Instant)
        ensures
            final(self)@ == old(self)@.discarded(*pkt),
            old(self).wf() ==> final(self).wf(),
    {
        if pkt.in_flight {
            self.bytes_in_flight = self.bytes_in_flight.saturating_sub(pkt.len);
        }
    }

    /// Everything in flight was given up, as when the path is retired.
    pub fn discard_path(&mut self, now: Instant)
        ensures
            final(self)@ == old(self)@.path_discarded(),
            old(self).wf() ==> final(self).wf(),
    {
        self.bytes_in_flight = 0;
    }
}

impl<S: WindowGrowthStrategy> CongestionController<S> {
    /// Grows the window in congestion avoidance, where `bytes_for_increase`
    /// acknowledged bytes buy one datagram of window: credit saved up
    /// earlier buys at most one, credit with `new_acked` added at most one
    /// more, and no more than `bytes_for_increase` is kept for later.
    pub fn apply_increase(&mut self, new_acked: usize, bytes_for_increase: usize)
        requires
            old(self).wf(),
            bytes_for_increase > 0,
            old(self)@.acked_bytes + new_acked <= usize::MAX,
            old(self)@.cwnd + 2 * old(self)@.max_datagram_size() <= usize::MAX,
        ensures
            final(self).wf(),
            final(self)@ == old(self)@.avoidance_grown(new_acked as int, bytes_for_increase as int),
    {
        let mds: usize = self.max_datagram_size();
        if self.acked_bytes >= bytes_for_increase {
            self.acked_bytes = 0;
            self.congestion_window += mds;
        }
        self.acked_bytes += new_acked;
        if self.acked_bytes >= bytes_for_increase {
            self.acked_bytes -= bytes_for_increase;
            self.congestion_window += mds;
        }
        if self.acked_bytes > bytes_for_increase {
            self.acked_bytes = bytes_for_increase;
        }
    }

    /// Grows the window in slow start by `new_acked` bytes and the credit
    /// saved up, as far as the threshold, where slow start ends.
    pub fn apply_slow_start(&mut self, new_acked: usize)
        requires
            old(self).wf(),
            old(self)@.acked_bytes + new_acked <= usize::MAX,
        ensures
            final(self).wf(),
            final(self)@ == old(self)@.slow_start_grown(new_acked as int),
    {
        if self.congestion_window < self.ssthresh {
            self.acked_bytes += new_acked;
            let room: usize = self.ssthresh - self.congestion_window;
            let increase: usize = if room <= self.acked_bytes {
                room
            } else {
                self.acked_bytes
            };
            self.congestion_window += increase;
            self.acked_bytes -= increase;
            if self.congestion_window == self.ssthresh {
                self.set_state(ControllerState::CongestionAvoidance);
            }
        }
    }

    /// Packets were acknowledged.
    ///
    /// Those that count against the window leave the bytes in flight. When
    /// none of them was sent while the window was in full use, the window
    /// stays as it is and the strategy is told. Otherwise the bytes of those
    /// sent in the present epoch are credited: below the threshold the
    /// window grows byte for byte, at or above it as the strategy allows.
    pub fn on_packets_acked(&mut self, acked_pkts: &[SentPacket], min_rtt: Duration, now: Instant)
        requires
            old(self).wf(),
            old(self)@.ackable(acked_pkts@),
        ensures
            final(self).wf(),
            final(self)@ == old(self)@.acked(acked_pkts@, min_rtt, now),
            !old(self)@.window_was_used(acked_pkts@) ==> final(self)@.cwnd == old(self)@.cwnd,
    {
        let ghost before = self@;
        let ghost pkts = acked_pkts@;
        let mut is_app_limited = true;
        let mut new_acked: usize = 0;
        let n: usize = acked_pkts.len();
        let mut i: usize = 0;
        proof {
            lemma_in_flight_bytes_nonnegative(pkts);
        }
        while i < n
            invariant
                i <= n,
                n == pkts.len(),
                pkts == acked_pkts@,
                before.inv(),
                before.cwnd + before.acked_bytes + 2 * in_flight_bytes(pkts) + 2
                    * before.max_datagram_size() <= usize::MAX,
                self@ == before.drained_by_ack(pkts.take(i as int)),
                is_app_limited == !before.window_was_used(pkts.take(i as int)),
                new_acked == before.credited_bytes(pkts.take(i as int)),
                new_acked <= in_flight_bytes(pkts.take(i as int)) <= in_flight_bytes(pkts),
            decreases n - i,
        {
            let pkt = &acked_pkts[i];
            let ghost seen = pkts.take(i as int);
            let ghost more = pkts.take(i + 1);
            proof {
                lemma_in_flight_bytes_step(pkts, i as int);
                lemma_credited_bytes_step(before, pkts, i as int);
                assert(more.len() == i + 1);
                assert(more[i as int] == pkts[i as int]);
                assert forall|k: int| 0 <= k < i implies seen[k] == more[k] by {}
                // What was found among the first `i` packets is still found
                // with one more, and anything new is found in the last.
                assert(before.window_was_used(more) <==> before.window_was_used(seen) || (
                pkts[i as int].in_flight && pkts[i as int].pn < before.first_app_limited)) by {
                    if before.window_was_used(seen) {
                        let k = choose|k: int|
                            0 <= k < seen.len() && (#[trigger] seen[k]).in_flight && seen[k].pn
                                < before.first_app_limited;
                        assert(more[k].in_flight);
                    }
                    if before.window_was_used(more) {
                        let k = choose|k: int|
                            0 <= k < more.len() && (#[trigger] more[k]).in_flight && more[k].pn
                                < before.first_app_limited;
                        if k < i {
                            assert(seen[k].in_flight);
                        }
                    }
                }
                assert(before.any_credited(more) <==> before.any_credited(seen) || before.credits(
                    pkts[i as int],
                )) by {
                    if before.any_credited(seen) {
                        let k = choose|k: int| 0 <= k < seen.len() && before.credits(#[trigger] seen[k]);
                        assert(before.credits(more[k]));
                    }
                    if before.any_credited(more) {
                        let k = choose|k: int| 0 <= k < more.len() && before.credits(#[trigger] more[k]);
                        if k < i {
                            assert(before.credits(seen[k]));
                        }
                    }
                }
            }
            i += 1;
            if !pkt.in_flight {
                continue ;
            }
            if pkt.pn < self.first_app_limited {
                is_app_limited = false;
            }
            self.bytes_in_flight = self.bytes_in_flight.saturating_sub(pkt.len);
            if !self.after_recovery_start(pkt) {
                continue ;
            }
            if self.state.in_recovery() {
                self.set_state(ControllerState::CongestionAvoidance);
            }
            new_acked += pkt.len;
        }
        assert(pkts.take(n as int) =~= pkts);
        if is_app_limited {
            self.strategy.on_app_limited();
            return ;
        }
        self.apply_slow_start(new_acked);
        if self.congestion_window >= self.ssthresh {
            let mds: usize = self.max_datagram_size();
            let bytes_for_increase = self.strategy.bytes_needed_for_increase(
                self.congestion_window,
                new_acked,
                min_rtt,
                mds,
                now,
            );
            self.apply_increase(new_acked, bytes_for_increase);
        }
    }

    /// Packets were declared lost, given in the order they were sent.
    /// Returns whether the window was reduced.
    ///
    /// Those that count against the window leave the bytes in flight. The
    /// loss of a probe for a larger datagram size says nothing about
    /// congestion, so probes are set aside. The last of the others is taken
    /// as a congestion signal, and all of the others are examined for
    /// persistent congestion.
    pub fn on_packets_lost(
        &mut self,
        first_rtt_sample_time: Option<Instant>,
        prev_largest_acked_sent: Option<Instant>,
        pto: Duration,
        lost_packets: &[SentPacket],
        now: Instant,
    ) -> (r: bool)
        requires
            old(self).wf(),
            sorted_by_time(lost_packets@),
        ensures
            final(self).wf(),
            (final(self)@, r) == old(self)@.lost(
                first_rtt_sample_time,
                prev_largest_acked_sent,
                pto,
                lost_packets@,
            ),
            lost_packets@.len() == 0 ==> !r && final(self)@ == old(self)@,
    {
        if lost_packets.len() == 0 {
            return false;
        }
        let ghost before = self@;
        let ghost pkts = lost_packets@;
        let n: usize = lost_packets.len();
        let mut signals: Vec<SentPacket> = Vec::new();
        let mut i: usize = 0;
        while i < n
            invariant
                i <= n,
                n == pkts.len(),
                pkts == lost_packets@,
                before.inv(),
                sorted_by_time(pkts),
                self@ == (ControllerModel {
                    bytes_in_flight: minus_to_zero(
                        before.bytes_in_flight,
                        in_flight_bytes(pkts.take(i as int)),
                    ),
                    ..before
                }),
                0 <= in_flight_bytes(pkts.take(i as int)),
                signals@ == without_probes(before.pmtud, pkts.take(i as int)),
                sorted_by_time(signals@),
                forall|k: int, j: int|
                    0 <= k < signals@.len() && i <= j < n ==> (#[trigger] signals@[k]).time_sent.nanos <= (
                    #[trigger] pkts[j]).time_sent.nanos,
            decreases n - i,
        {
            let pkt = lost_packets[i];
            proof {
                lemma_in_flight_bytes_step(pkts, i as int);
                lemma_in_flight_bytes_nonnegative(pkts.take(i + 1));
                lemma_without_probes_step(before.pmtud, pkts, i as int);
            }
            if pkt.in_flight {
                self.bytes_in_flight = self.bytes_in_flight.saturating_sub(pkt.len);
            }
            if !self.pmtud.is_probe(&pkt) {
                signals.push(pkt);
            }
            i += 1;
        }
        assert(pkts.take(n as int) =~= pkts);
        if signals.len() == 0 {
            return false;
        }
        let last_lost_packet = signals[signals.len() - 1];
        let congestion = self.on_congestion_event(&last_lost_packet, now);
        let persistent = self.detect_persistent_congestion(
            first_rtt_sample_time,
            prev_largest_acked_sent,
            pto,
            signals.as_slice(),
            now,
        );
        congestion || persistent
    }
}

} // verus!
