//! What holds of the controller whatever happens to it, stated over its
//! model and proved.

use vstd::prelude::*;
use crate::cc::model::{
    int_max, lemma_credited_bytes_nonnegative, lemma_in_flight_bytes_nonnegative, without_probes,
    ControllerModel,
};
use crate::cc::packet::SentPacket;
use crate::cc::persistent::{cutoff_spec, law_two_losses_boundary, persistent_congestion};
use crate::cc::pmtud::Pmtud;
use crate::cc::trace::{admissible_at, admissible_prefix, apply, run, Event};
use crate::cc::state::ControllerState;
use crate::cc::time::{Duration, Instant};
use crate::cc::window::{NewReno, WindowGrowthStrategy};

verus! {

/// Credit never shrinks the window, in slow start or after it.
pub proof fn lemma_growth_keeps_invariant<S: WindowGrowthStrategy>(
    m: ControllerModel<S>,
    new_acked: int,
    min_rtt: Duration,
    now: Instant,
)
    requires
        m.inv(),
        new_acked >= 0,
    ensures
        m.grown(new_acked, min_rtt, now).inv(),
        m.grown(new_acked, min_rtt, now).cwnd >= m.cwnd,
        m.grown(new_acked, min_rtt, now).bytes_in_flight == m.bytes_in_flight,
{
}

/// No single event takes the window below two datagrams or the bytes in
/// flight below zero.
pub proof fn law_event_keeps_invariant<S: WindowGrowthStrategy>(m: ControllerModel<S>, e: Event)
    requires
        m.inv(),
    ensures
        apply(m, e).inv(),
        apply(m, e).cwnd >= apply(m, e).cwnd_min(),
        apply(m, e).bytes_in_flight >= 0,
{
    match e {
        Event::Acked { pkts, min_rtt, now } => {
            lemma_credited_bytes_nonnegative(m, pkts);
            lemma_growth_keeps_invariant(m.drained_by_ack(pkts), m.credited_bytes(pkts), min_rtt, now);
        },
        _ => {},
    }
}

/// After every sequence of calls the window is at least two datagrams and
/// the bytes in flight are not negative.
pub proof fn law_invariant_holds_always<S: WindowGrowthStrategy>(m: ControllerModel<S>, trace: Seq<Event>)
    requires
        m.inv(),
    ensures
        run(m, trace).inv(),
        run(m, trace).cwnd >= run(m, trace).cwnd_min(),
        run(m, trace).bytes_in_flight >= 0,
    decreases trace.len(),
{
    if trace.len() > 0 {
        law_invariant_holds_always(m, trace.drop_last());
        law_event_keeps_invariant(run(m, trace.drop_last()), trace.last());
    }
}

/// A controller for a fresh path satisfies the invariant, so every state
/// that a controller can reach does.
pub proof fn law_fresh_controller_is_sound<S: WindowGrowthStrategy>(
    strategy: S,
    pmtud: Pmtud,
    trace: Seq<Event>,
)
    requires
        pmtud.wf(),
    ensures
        ControllerModel::initial(strategy, pmtud).inv(),
        run(ControllerModel::initial(strategy, pmtud), trace).inv(),
        coherent(run(ControllerModel::initial(strategy, pmtud), trace)),
{
    law_invariant_holds_always(ControllerModel::initial(strategy, pmtud), trace);
    law_coherence_holds_always(ControllerModel::initial(strategy, pmtud), trace);
}

/// Declaring no packets lost changes nothing and reports no reduction.
pub proof fn law_empty_loss_changes_nothing<S: WindowGrowthStrategy>(
    m: ControllerModel<S>,
    first_rtt_sample_time: Option<Instant>,
    prev_largest_acked_sent: Option<Instant>,
    pto: Duration,
)
    requires
        m.inv(),
    ensures
        m.lost(first_rtt_sample_time, prev_largest_acked_sent, pto, Seq::empty()) == (m, false),
{
}

/// A packet sent while the sender is limited by the application leaves the
/// boundary of full use where it was.
pub proof fn law_limited_send_keeps_boundary<S: WindowGrowthStrategy>(m: ControllerModel<S>, p: SentPacket)
    requires
        !m.state.transient_spec(),
        m.app_limited(),
    ensures
        m.sent(p).first_app_limited == m.first_app_limited,
        m.sent(p).cwnd == m.cwnd,
{
}

/// Acknowledgements that cover no packet sent while the window was in full
/// use leave the window, the threshold and the credit as they were.
pub proof fn law_limited_ack_keeps_window<S: WindowGrowthStrategy>(
    m: ControllerModel<S>,
    pkts: Seq<SentPacket>,
    min_rtt: Duration,
    now: Instant,
)
    requires
        !m.window_was_used(pkts),
    ensures
        m.acked(pkts, min_rtt, now).cwnd == m.cwnd,
        m.acked(pkts, min_rtt, now).ssthresh == m.ssthresh,
        m.acked(pkts, min_rtt, now).acked_bytes == m.acked_bytes,
{
}

/// In slow start, a packet sent with less than half the window in flight
/// does not grow the window when it is acknowledged.
pub proof fn law_app_limited_gate<S: WindowGrowthStrategy>(
    m: ControllerModel<S>,
    p: SentPacket,
    min_rtt: Duration,
    now: Instant,
)
    requires
        m.inv(),
        m.state == ControllerState::SlowStart,
        m.bytes_in_flight < m.cwnd / 2,
        m.first_app_limited <= p.pn,
    ensures
        m.sent(p).acked(seq![p], min_rtt, now).cwnd == m.cwnd,
{
    let s = m.sent(p);
    assert(m.app_limited());
    assert(s.first_app_limited == m.first_app_limited);
    let pkts = seq![p];
    assert forall|i: int| 0 <= i < pkts.len() implies !((#[trigger] pkts[i]).in_flight && pkts[i].pn
        < s.first_app_limited) by {
        assert(pkts[i] == p);
    }
    law_limited_ack_keeps_window(s, pkts, min_rtt, now);
}

/// The controller after the packets `ps` were sent, first to last.
pub open spec fn sent_all<S: WindowGrowthStrategy>(m: ControllerModel<S>, ps: Seq<SentPacket>) -> ControllerModel<S>
    decreases ps.len(),
{
    if ps.len() == 0 {
        m
    } else {
        sent_all(m, ps.drop_last()).sent(ps.last())
    }
}

/// A burst of packets of which each is sent while the sender is limited by
/// the application, in slow start with less than half the window in flight
/// or otherwise, earns no growth: the boundary of full use stays where it
/// was, and the acknowledgement of packets from that boundary on leaves the
/// window as it was before the burst.
pub proof fn law_app_limited_burst<S: WindowGrowthStrategy>(
    m: ControllerModel<S>,
    ps: Seq<SentPacket>,
    acked: Seq<SentPacket>,
    min_rtt: Duration,
    now: Instant,
)
    requires
        !m.state.transient_spec(),
        forall|k: int| 0 <= k < ps.len() ==> (#[trigger] sent_all(m, ps.take(k))).app_limited(),
        forall|i: int| 0 <= i < acked.len() ==> m.first_app_limited <= (#[trigger] acked[i]).pn,
    ensures
        sent_all(m, ps).first_app_limited == m.first_app_limited,
        sent_all(m, ps).cwnd == m.cwnd,
        sent_all(m, ps).state == m.state,
        sent_all(m, ps).acked(acked, min_rtt, now).cwnd == m.cwnd,
    decreases ps.len(),
{
    if ps.len() > 0 {
        let front = ps.drop_last();
        assert forall|k: int| 0 <= k < front.len() implies (#[trigger] sent_all(m, front.take(k))).app_limited() by {
            assert(front.take(k) =~= ps.take(k));
        }
        law_app_limited_burst(m, front, acked, min_rtt, now);
        assert(ps.take(ps.len() - 1) =~= front);
        assert(sent_all(m, ps.take(ps.len() - 1)).app_limited());
    }
    law_limited_ack_keeps_window(sent_all(m, ps), acked, min_rtt, now);
}

/// Only losses and congestion marks take the window down, and only they
/// move the threshold: a packet sent, a discard or a probe leaves the
/// window as it is, and acknowledgements can but grow it.
pub proof fn law_only_congestion_shrinks_window<S: WindowGrowthStrategy>(m: ControllerModel<S>, e: Event)
    requires
        m.inv(),
        !(e is Lost),
        !(e is EcnCe),
    ensures
        apply(m, e).cwnd >= m.cwnd,
        apply(m, e).ssthresh == m.ssthresh,
        !(e is Acked) ==> apply(m, e).cwnd == m.cwnd && apply(m, e).acked_bytes == m.acked_bytes,
{
    match e {
        Event::Acked { pkts, min_rtt, now } => {
            lemma_credited_bytes_nonnegative(m, pkts);
            lemma_growth_keeps_invariant(m.drained_by_ack(pkts), m.credited_bytes(pkts), min_rtt, now);
        },
        _ => {},
    }
}

/// Only a packet sent adds to the bytes in flight, and it adds its length
/// if it counts against the window.
pub proof fn law_only_sending_adds_bytes<S: WindowGrowthStrategy>(m: ControllerModel<S>, e: Event)
    requires
        m.inv(),
    ensures
        e matches Event::Sent { pkt } ==> apply(m, e).bytes_in_flight == m.bytes_in_flight + if pkt.in_flight {
            pkt.len as int
        } else {
            0
        },
        !(e is Sent) ==> apply(m, e).bytes_in_flight <= m.bytes_in_flight,
{
    match e {
        Event::Acked { pkts, min_rtt, now } => {
            lemma_credited_bytes_nonnegative(m, pkts);
            lemma_in_flight_bytes_nonnegative(pkts);
            lemma_growth_keeps_invariant(m.drained_by_ack(pkts), m.credited_bytes(pkts), min_rtt, now);
        },
        Event::Lost { first_rtt_sample_time, prev_largest_acked_sent, pto, pkts } => {
            lemma_in_flight_bytes_nonnegative(pkts);
        },
        _ => {},
    }
}

/// With additive increase and multiplicative decrease, a congestion signal
/// that counts halves the window, down to the floor of two datagrams, and
/// clears the credit.
pub proof fn law_new_reno_halves_window(m: ControllerModel<NewReno>, p: SentPacket)
    requires
        m.inv(),
        m.after_recovery_start(p),
    ensures
        m.congestion_event(p).0.cwnd == int_max(m.cwnd / 2, m.cwnd_min()),
        m.congestion_event(p).0.ssthresh == int_max(m.cwnd / 2, m.cwnd_min()),
        m.congestion_event(p).0.acked_bytes == 0,
        m.congestion_event(p).0.cwnd <= m.cwnd,
{
}

/// With additive increase and multiplicative decrease, a window in
/// congestion avoidance grows by one datagram when a window's worth of
/// bytes has been acknowledged, and not before.
pub proof fn law_new_reno_grows_by_a_datagram_per_window(m: ControllerModel<NewReno>, new_acked: int, min_rtt: Duration, now: Instant)
    requires
        m.inv(),
        m.cwnd >= m.ssthresh,
        0 <= new_acked,
        m.acked_bytes < m.cwnd,
    ensures
        m.acked_bytes + new_acked < m.cwnd ==> m.grown(new_acked, min_rtt, now).cwnd == m.cwnd && m.grown(
            new_acked,
            min_rtt,
            now,
        ).acked_bytes == m.acked_bytes + new_acked,
        m.acked_bytes + new_acked >= m.cwnd ==> m.grown(new_acked, min_rtt, now).cwnd == m.cwnd
            + m.max_datagram_size(),
{
}

/// A congestion signal for a packet of the present epoch leaves the
/// threshold equal to the window, and a recovery period due.
pub proof fn law_congestion_sets_threshold<S: WindowGrowthStrategy>(m: ControllerModel<S>, p: SentPacket)
    requires
        m.inv(),
        m.after_recovery_start(p),
    ensures
        m.congestion_event(p).1,
        m.congestion_event(p).0.ssthresh == m.congestion_event(p).0.cwnd,
        m.congestion_event(p).0.state == ControllerState::RecoveryStart,
        m.congestion_event(p).0.cwnd >= m.cwnd_min(),
{
}

/// A loss that is a congestion signal, without persistent congestion,
/// leaves the threshold equal to the window.
pub proof fn law_loss_sets_threshold<S: WindowGrowthStrategy>(
    m: ControllerModel<S>,
    first_rtt_sample_time: Option<Instant>,
    prev_largest_acked_sent: Option<Instant>,
    pto: Duration,
    pkts: Seq<SentPacket>,
)
    requires
        m.inv(),
        without_probes(m.pmtud, pkts).len() > 0,
        m.after_recovery_start(without_probes(m.pmtud, pkts).last()),
        !persistent_congestion(
            first_rtt_sample_time,
            prev_largest_acked_sent,
            pto,
            without_probes(m.pmtud, pkts),
        ),
    ensures
        m.lost(first_rtt_sample_time, prev_largest_acked_sent, pto, pkts).1,
        m.lost(first_rtt_sample_time, prev_largest_acked_sent, pto, pkts).0.ssthresh == m.lost(
            first_rtt_sample_time,
            prev_largest_acked_sent,
            pto,
            pkts,
        ).0.cwnd,
{
}

/// Once an RTT sample exists, two consecutive lost packets that count, sent
/// at or after the cutoff, are persistent congestion when and only when more
/// than three probe timeouts separate them: exactly three is not enough, a
/// nanosecond more is.
pub proof fn law_persistent_congestion_boundary(
    a: SentPacket,
    b: SentPacket,
    first_rtt_sample_time: Instant,
    prev_largest_acked_sent: Option<Instant>,
    pto: Duration,
)
    requires
        a.marks_congestion(),
        b.marks_congestion(),
        b.pn == a.pn + 1,
        cutoff_spec(first_rtt_sample_time, prev_largest_acked_sent).nanos <= a.time_sent.nanos,
        a.time_sent.nanos <= b.time_sent.nanos,
    ensures
        persistent_congestion(Some(first_rtt_sample_time), prev_largest_acked_sent, pto, seq![a, b]) <==> b.time_sent.nanos
            - a.time_sent.nanos > 3 * pto.nanos,
        b.time_sent.nanos - a.time_sent.nanos == 3 * pto.nanos ==> !persistent_congestion(
            Some(first_rtt_sample_time),
            prev_largest_acked_sent,
            pto,
            seq![a, b],
        ),
        b.time_sent.nanos - a.time_sent.nanos == 3 * pto.nanos + 1 ==> persistent_congestion(
            Some(first_rtt_sample_time),
            prev_largest_acked_sent,
            pto,
            seq![a, b],
        ),
{
    law_two_losses_boundary(a, b, cutoff_spec(first_rtt_sample_time, prev_largest_acked_sent), pto);
}

/// The first packet sent after congestion was declared begins the recovery
/// period: its number is recorded and the state settles.
pub proof fn law_recovery_begins_with_next_packet<S: WindowGrowthStrategy>(m: ControllerModel<S>, p: SentPacket)
    requires
        m.state == ControllerState::RecoveryStart,
    ensures
        m.sent(p).recovery_start == Some(p.pn as int),
        m.sent(p).state == ControllerState::Recovery,
        m.sent(p).cwnd == m.cwnd,
        m.sent(p).ssthresh == m.ssthresh,
{
}

/// A congestion signal for a packet sent before the recovery period began
/// does not reduce the window a second time: nothing changes at all.
pub proof fn law_stale_signal_is_ignored<S: WindowGrowthStrategy>(m: ControllerModel<S>, p: SentPacket)
    requires
        m.recovery_start is Some,
        p.pn < m.recovery_start.unwrap(),
    ensures
        m.congestion_event(p) == (m, false),
{
}

/// Between a congestion signal and the next packet sent, further signals
/// change nothing, whatever packet they are for.
pub proof fn law_one_reduction_per_event<S: WindowGrowthStrategy>(
    m: ControllerModel<S>,
    p: SentPacket,
    q: SentPacket,
)
    requires
        m.inv(),
    ensures
        m.congestion_event(p).1 ==> m.congestion_event(p).0.congestion_event(q) == (
            m.congestion_event(p).0,
            false,
        ),
{
}

/// What holds besides the invariant of every state that events bring
/// about: while a recovery period is due the window is not below the
/// threshold, and after persistent congestion no credit is left.
pub open spec fn coherent<S: WindowGrowthStrategy>(m: ControllerModel<S>) -> bool {
    &&& m.inv()
    &&& m.state == ControllerState::RecoveryStart ==> m.cwnd >= m.ssthresh
    &&& m.state == ControllerState::PersistentCongestion ==> m.acked_bytes == 0
}

/// In a transient state no acknowledgement earns credit.
pub proof fn lemma_no_credit_in_transient_state<S: WindowGrowthStrategy>(
    m: ControllerModel<S>,
    pkts: Seq<SentPacket>,
)
    requires
        m.state.transient_spec(),
    ensures
        m.credited_bytes(pkts) == 0,
        !m.any_credited(pkts),
    decreases pkts.len(),
{
    if pkts.len() > 0 {
        lemma_no_credit_in_transient_state(m, pkts.drop_last());
    }
}

/// No event breaks the coherence of a state.
pub proof fn law_event_keeps_coherence<S: WindowGrowthStrategy>(m: ControllerModel<S>, e: Event)
    requires
        coherent(m),
    ensures
        coherent(apply(m, e)),
{
    law_event_keeps_invariant(m, e);
    match e {
        Event::Acked { pkts, min_rtt, now } => {
            lemma_credited_bytes_nonnegative(m, pkts);
            if m.state.transient_spec() {
                lemma_no_credit_in_transient_state(m, pkts);
            }
        },
        _ => {},
    }
}

/// Every state that a sequence of events leads to from a coherent state is
/// coherent; the state of a fresh controller is.
pub proof fn law_coherence_holds_always<S: WindowGrowthStrategy>(m: ControllerModel<S>, trace: Seq<Event>)
    requires
        coherent(m),
    ensures
        coherent(run(m, trace)),
    decreases trace.len(),
{
    if trace.len() > 0 {
        law_coherence_holds_always(m, trace.drop_last());
        law_event_keeps_coherence(run(m, trace.drop_last()), trace.last());
    }
}

/// A packet sent always leaves the controller in a settled state: a
/// recovery period that was due has begun, and persistent congestion has
/// given way to slow start.
pub proof fn law_sending_settles_state<S: WindowGrowthStrategy>(m: ControllerModel<S>, p: SentPacket)
    ensures
        m.sent(p).state == m.state.resolved(),
        !m.sent(p).state.transient_spec(),
        m.state.transient_spec() ==> m.sent(p).recovery_start == Some(p.pn as int),
        !m.state.transient_spec() ==> m.sent(p).recovery_start == m.recovery_start,
{
}

/// Nothing but the sending of a packet settles a transient state:
/// acknowledgements, congestion marks and discards leave it as it is, and
/// losses leave it only for persistent congestion.
pub proof fn law_only_sending_settles_state<S: WindowGrowthStrategy>(m: ControllerModel<S>, e: Event)
    requires
        coherent(m),
        m.state.transient_spec(),
        !(e is Sent),
    ensures
        apply(m, e).state == m.state || (e is Lost && apply(m, e).state
            == ControllerState::PersistentCongestion),
{
    match e {
        Event::Acked { pkts, min_rtt, now } => {
            lemma_no_credit_in_transient_state(m, pkts);
        },
        _ => {},
    }
}

/// The ways in which one event changes the state: a packet sent settles a
/// transient state; acknowledgements end slow start or a recovery period in
/// congestion avoidance; a congestion mark makes a recovery period due; a
/// loss does the same or declares persistent congestion; discards change
/// nothing.
pub proof fn law_state_transitions<S: WindowGrowthStrategy>(m: ControllerModel<S>, e: Event)
    requires
        coherent(m),
    ensures
        match e {
            Event::Sent { .. } => apply(m, e).state == m.state.resolved(),
            Event::Acked { .. } => apply(m, e).state == m.state || (apply(m, e).state
                == ControllerState::CongestionAvoidance && (m.state == ControllerState::SlowStart
                || m.state == ControllerState::Recovery)),
            Event::EcnCe { .. } => apply(m, e).state == m.state || (apply(m, e).state
                == ControllerState::RecoveryStart && !m.state.transient_spec()),
            Event::Lost { .. } => apply(m, e).state == m.state || apply(m, e).state
                == ControllerState::PersistentCongestion || (apply(m, e).state
                == ControllerState::RecoveryStart && !m.state.transient_spec()),
            _ => apply(m, e).state == m.state,
        },
{
    match e {
        Event::Acked { pkts, min_rtt, now } => {
            lemma_credited_bytes_nonnegative(m, pkts);
            if m.state.transient_spec() {
                lemma_no_credit_in_transient_state(m, pkts);
            }
        },
        _ => {},
    }
}

/// A packet that counts against the window, sent while the window is in
/// full use, moves the boundary of full use past itself.
pub proof fn law_full_use_advances_boundary<S: WindowGrowthStrategy>(m: ControllerModel<S>, p: SentPacket)
    requires
        !m.state.transient_spec(),
        !m.app_limited(),
        p.in_flight,
    ensures
        m.sent(p).first_app_limited == p.pn + 1,
        m.sent(p).bytes_in_flight == m.bytes_in_flight + p.len,
{
}

/// The same events applied to the same controller give the same controller:
/// nothing but its state and the arguments of its calls decides what a
/// controller does.
pub proof fn law_replay_is_deterministic<S: WindowGrowthStrategy>(
    a: ControllerModel<S>,
    b: ControllerModel<S>,
    trace: Seq<Event>,
)
    requires
        a == b,
    ensures
        run(a, trace) == run(b, trace),
        run(a, trace).cwnd == run(b, trace).cwnd,
        run(a, trace).ssthresh == run(b, trace).ssthresh,
        run(a, trace).bytes_in_flight == run(b, trace).bytes_in_flight,
{
}

/// What `replay` returns and leaves behind is decided by the controller it
/// starts from and the record alone: two replays of one record on equal
/// controllers apply the same number of events and end in equal
/// controllers, with the same window, threshold and bytes in flight.
pub proof fn law_replay_has_one_outcome<S: WindowGrowthStrategy>(
    a: ControllerModel<S>,
    b: ControllerModel<S>,
    trace: Seq<Event>,
    applied_a: int,
    applied_b: int,
)
    requires
        a == b,
        0 <= applied_a <= trace.len(),
        0 <= applied_b <= trace.len(),
        admissible_prefix(a, trace, applied_a),
        admissible_prefix(b, trace, applied_b),
        applied_a < trace.len() ==> !admissible_at(a, trace, applied_a),
        applied_b < trace.len() ==> !admissible_at(b, trace, applied_b),
    ensures
        applied_a == applied_b,
        run(a, trace.take(applied_a)) == run(b, trace.take(applied_b)),
        run(a, trace.take(applied_a)).cwnd == run(b, trace.take(applied_b)).cwnd,
        run(a, trace.take(applied_a)).ssthresh == run(b, trace.take(applied_b)).ssthresh,
        run(a, trace.take(applied_a)).bytes_in_flight == run(b, trace.take(applied_b)).bytes_in_flight,
{
    if applied_a < applied_b {
        assert(admissible_at(b, trace, applied_a));
    }
    if applied_b < applied_a {
        assert(admissible_at(a, trace, applied_b));
    }
}

} // verus!
