//! The calls on a controller as values, so that a run of a connection can
//! be recorded, replayed and reasoned about.

use vstd::prelude::*;
use crate::cc::controller::CongestionController;
use crate::cc::model::ControllerModel;
use crate::cc::packet::SentPacket;
use crate::cc::persistent::{is_sorted_by_time, sorted_by_time};
use crate::cc::pmtud::Pmtud;
use crate::cc::time::{Duration, Instant};
use crate::cc::window::WindowGrowthStrategy;

verus! {

/// One call on a controller, with the arguments that decide what it does.
pub enum Event {
    Sent { pkt: SentPacket },
    Acked { pkts: Seq<SentPacket>, min_rtt: Duration, now: Instant },
    Lost {
        first_rtt_sample_time: Option<Instant>,
        prev_largest_acked_sent: Option<Instant>,
        pto: Duration,
        pkts: Seq<SentPacket>,
    },
    EcnCe { pkt: SentPacket },
    Discarded { pkt: SentPacket },
    PathDiscarded,
    ProbeStarted { size: usize },
    ProbeStopped,
}

/// One call on a controller, as recorded.
#[derive(Clone, Debug, PartialEq, Eq)]
pub enum ControllerEvent {
    Sent { pkt: SentPacket, now: Instant },
    Acked { pkts: Vec<SentPacket>, min_rtt: Duration, now: Instant },
    Lost {
        first_rtt_sample_time: Option<Instant>,
        prev_largest_acked_sent: Option<Instant>,
        pto: Duration,
        pkts: Vec<SentPacket>,
        now: Instant,
    },
    EcnCe { pkt: SentPacket, now: Instant },
    Discarded { pkt: SentPacket, now: Instant },
    PathDiscarded { now: Instant },
    ProbeStarted { size: usize },
    ProbeStopped,
}

impl View for ControllerEvent {
    type V = Event;

    open spec fn view(&self) -> Event {
        match *self {
            ControllerEvent::Sent { pkt, now } => Event::Sent { pkt },
            ControllerEvent::Acked { pkts, min_rtt, now } => Event::Acked { pkts: pkts@, min_rtt, now },
            ControllerEvent::Lost { first_rtt_sample_time, prev_largest_acked_sent, pto, pkts, now } => Event::Lost {
                first_rtt_sample_time,
                prev_largest_acked_sent,
                pto,
                pkts: pkts@,
            },
            ControllerEvent::EcnCe { pkt, now } => Event::EcnCe { pkt },
            ControllerEvent::Discarded { pkt, now } => Event::Discarded { pkt },
            ControllerEvent::PathDiscarded { now } => Event::PathDiscarded,
            ControllerEvent::ProbeStarted { size } => Event::ProbeStarted { size },
            ControllerEvent::ProbeStopped => Event::ProbeStopped,
        }
    }
}

/// The events that a record holds, in their order.
pub open spec fn events_of(record: Seq<ControllerEvent>) -> Seq<Event> {
    Seq::new(record.len(), |i: int| record[i]@)
}

/// The controller after one event.
pub open spec fn apply<S: WindowGrowthStrategy>(m: ControllerModel<S>, e: Event) -> ControllerModel<S> {
    match e {
        Event::Sent { pkt } => m.sent(pkt),
        Event::Acked { pkts, min_rtt, now } => m.acked(pkts, min_rtt, now),
        Event::Lost { first_rtt_sample_time, prev_largest_acked_sent, pto, pkts } => m.lost(
            first_rtt_sample_time,
            prev_largest_acked_sent,
            pto,
            pkts,
        ).0,
        Event::EcnCe { pkt } => m.congestion_event(pkt).0,
        Event::Discarded { pkt } => m.discarded(pkt),
        Event::PathDiscarded => m.path_discarded(),
        Event::ProbeStarted { size } => ControllerModel {
            pmtud: Pmtud { probe_size: Some(size), ..m.pmtud },
            ..m
        },
        Event::ProbeStopped => ControllerModel { pmtud: Pmtud { probe_size: None, ..m.pmtud }, ..m },
    }
}

/// Whether an event reduces the window: a loss or a congestion mark that
/// counts does, and nothing else.
pub open spec fn reduces<S: WindowGrowthStrategy>(m: ControllerModel<S>, e: Event) -> bool {
    match e {
        Event::Lost { first_rtt_sample_time, prev_largest_acked_sent, pto, pkts } => m.lost(
            first_rtt_sample_time,
            prev_largest_acked_sent,
            pto,
            pkts,
        ).1,
        Event::EcnCe { pkt } => m.congestion_event(pkt).1,
        _ => false,
    }
}

/// The event can be applied: the counters have room for what it brings, and
/// lost packets come in the order they were sent.
pub open spec fn admissible<S: WindowGrowthStrategy>(m: ControllerModel<S>, e: Event) -> bool {
    match e {
        Event::Sent { pkt } => m.sendable(pkt),
        Event::Acked { pkts, min_rtt, now } => m.ackable(pkts),
        Event::Lost { first_rtt_sample_time, prev_largest_acked_sent, pto, pkts } => sorted_by_time(pkts),
        _ => true,
    }
}

/// The controller after a sequence of events, first to last.
pub open spec fn run<S: WindowGrowthStrategy>(m: ControllerModel<S>, trace: Seq<Event>) -> ControllerModel<S>
    decreases trace.len(),
{
    if trace.len() == 0 {
        m
    } else {
        apply(run(m, trace.drop_last()), trace.last())
    }
}

/// Event `k` of the trace can be applied where the events before it lead.
pub open spec fn admissible_at<S: WindowGrowthStrategy>(m: ControllerModel<S>, trace: Seq<Event>, k: int) -> bool {
    admissible(run(m, trace.take(k)), trace[k])
}

/// Each of the first `n` events of the trace can be applied when its turn
/// comes.
pub open spec fn admissible_prefix<S: WindowGrowthStrategy>(m: ControllerModel<S>, trace: Seq<Event>, n: int) -> bool {
    forall|k: int| 0 <= k < n ==> #[trigger] admissible_at(m, trace, k)
}

/// Running one event more is applying it to where the run had got.
pub proof fn lemma_run_step<S: WindowGrowthStrategy>(m: ControllerModel<S>, trace: Seq<Event>, i: int)
    requires
        0 <= i < trace.len(),
    ensures
        run(m, trace.take(i + 1)) == apply(run(m, trace.take(i)), trace[i]),
{
    assert(trace.take(i + 1).drop_last() =~= trace.take(i));
}

impl<S: WindowGrowthStrategy> CongestionController<S> {
    /// Whether `event` can be applied as the controller stands.
    pub fn can_apply(&self, event: &ControllerEvent) -> (r: bool)
        requires
            self.wf(),
        ensures
            r == admissible(self@, event@),
    {
        match event {
            ControllerEvent::Sent { pkt, now } => self.can_send(pkt),
            ControllerEvent::Acked { pkts, min_rtt, now } => self.can_ack(pkts.as_slice()),
            ControllerEvent::Lost { first_rtt_sample_time, prev_largest_acked_sent, pto, pkts, now } => {
                is_sorted_by_time(pkts.as_slice())
            },
            _ => true,
        }
    }

    /// Makes the call that `event` records. Returns whether the window was
    /// reduced.
    pub fn apply(&mut self, event: &ControllerEvent) -> (reduced: bool)
        requires
            old(self).wf(),
            admissible(old(self)@, event@),
        ensures
            final(self).wf(),
            final(self)@ == apply(old(self)@, event@),
            reduced == reduces(old(self)@, event@),
    {
        match event {
            ControllerEvent::Sent { pkt, now } => {
                self.on_packet_sent(pkt, *now);
                false
            },
            ControllerEvent::Acked { pkts, min_rtt, now } => {
                self.on_packets_acked(pkts.as_slice(), *min_rtt, *now);
                false
            },
            ControllerEvent::Lost { first_rtt_sample_time, prev_largest_acked_sent, pto, pkts, now } => {
                self.on_packets_lost(
                    *first_rtt_sample_time,
                    *prev_largest_acked_sent,
                    *pto,
                    pkts.as_slice(),
                    *now,
                )
            },
            ControllerEvent::EcnCe { pkt, now } => self.on_ecn_ce_received(pkt, *now),
            ControllerEvent::Discarded { pkt, now } => {
                self.discard(pkt, *now);
                false
            },
            ControllerEvent::PathDiscarded { now } => {
                self.discard_path(*now);
                false
            },
            ControllerEvent::ProbeStarted { size } => {
                self.start_probe(*size);
                false
            },
            ControllerEvent::ProbeStopped => {
                self.stop_probe();
                false
            },
        }
    }

    /// Applies the events of `record` in their order, as far as they can be
    /// applied. Returns how many were: all of them, unless one was reached
    /// that the controller had no room for or whose lost packets were out
    /// of order, at which the replay stops.
    pub fn replay(&mut self, record: &[ControllerEvent]) -> (applied: usize)
        requires
            old(self).wf(),
        ensures
            final(self).wf(),
            applied <= record@.len(),
            final(self)@ == run(old(self)@, events_of(record@).take(applied as int)),
            admissible_prefix(old(self)@, events_of(record@), applied as int),
            applied < record@.len() ==> !admissible_at(old(self)@, events_of(record@), applied as int),
    {
        let ghost start = self@;
        let ghost trace = events_of(record@);
        let n: usize = record.len();
        let mut i: usize = 0;
        while i < n
            invariant
                i <= n,
                n == record@.len(),
                trace == events_of(record@),
                self.wf(),
                start == old(self)@,
                self@ == run(start, trace.take(i as int)),
                admissible_prefix(start, trace, i as int),
            decreases n - i,
        {
            assert(trace[i as int] == record@[i as int]@);
            if !self.can_apply(&record[i]) {
                return i;
            }
            proof {
                assert(admissible_at(start, trace, i as int));
                lemma_run_step(start, trace, i as int);
            }
            self.apply(&record[i]);
            i += 1;
        }
        i
    }
}

} // verus!
