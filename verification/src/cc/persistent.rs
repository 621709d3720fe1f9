//! Detection of persistent congestion: a stretch of consecutive lost packets
//! that lasted longer than a few probe timeouts, which shows that the path
//! carried nothing for that long.

use vstd::prelude::*;
use crate::cc::packet::SentPacket;
use crate::cc::time::{Duration, Instant};

verus! {

/// How many probe timeouts a run of losses must outlast.
pub const PERSISTENT_CONG_THRESH: u32 = 3;

/// Send times never go back along the sequence.
pub open spec fn sorted_by_time(s: Seq<SentPacket>) -> bool {
    forall|i: int, j: int| 0 <= i <= j < s.len() ==> s[i].time_sent.nanos <= s[j].time_sent.nanos
}

/// The packet at position `k` bears the number after that of the packet
/// before it.
pub open spec fn follows(s: Seq<SentPacket>, k: int) -> bool {
    s[k].pn == s[k - 1].pn + 1
}

/// From position `i` to position `j` no packet number is missing.
pub open spec fn contiguous(s: Seq<SentPacket>, i: int, j: int) -> bool {
    forall|k: int| i < k <= j ==> #[trigger] follows(s, k)
}

/// The later of the first RTT sample and the sending of the packet that was
/// the largest acknowledged before these losses. Losses sent before it prove
/// nothing.
pub open spec fn cutoff_spec(first_rtt_sample_time: Instant, prev_largest_acked_sent: Option<Instant>) -> Instant {
    match prev_largest_acked_sent {
        Some(t) if t.nanos > first_rtt_sample_time.nanos => t,
        _ => first_rtt_sample_time,
    }
}

/// Positions `i` and `j` bound a run that shows persistent congestion: both
/// packets count against the window and demand acknowledgement, `i` was sent
/// no earlier than the cutoff, no packet number is missing between them, and
/// more than the threshold of probe timeouts passed from one to the other.
pub open spec fn spans_congestion(s: Seq<SentPacket>, cutoff: Instant, pto: Duration, i: int, j: int) -> bool {
    &&& 0 <= i < j < s.len()
    &&& s[i].time_sent.nanos >= cutoff.nanos
    &&& s[i].marks_congestion()
    &&& s[j].marks_congestion()
    &&& contiguous(s, i, j)
    &&& s[j].time_sent.nanos - s[i].time_sent.nanos > pto.nanos * PERSISTENT_CONG_THRESH
}

/// Some run among the lost packets `s` shows persistent congestion.
pub open spec fn has_congested_run(s: Seq<SentPacket>, cutoff: Instant, pto: Duration) -> bool {
    exists|i: int, j: int| spans_congestion(s, cutoff, pto, i, j)
}

/// Whether the losses `s` amount to persistent congestion. Without an RTT
/// sample they never do.
pub open spec fn persistent_congestion(
    first_rtt_sample_time: Option<Instant>,
    prev_largest_acked_sent: Option<Instant>,
    pto: Duration,
    s: Seq<SentPacket>,
) -> bool {
    match first_rtt_sample_time {
        Some(first) => has_congested_run(s, cutoff_spec(first, prev_largest_acked_sent), pto),
        None => false,
    }
}

/// Each packet was sent no later than the next.
pub open spec fn stepwise_sorted(s: Seq<SentPacket>, n: int) -> bool {
    forall|k: int| 0 < k < n ==> s[k - 1].time_sent.nanos <= (#[trigger] s[k]).time_sent.nanos
}

/// Packets of which each was sent no later than the next are in the order
/// of their sending throughout.
pub proof fn lemma_stepwise_sorted(s: Seq<SentPacket>, i: int, j: int)
    requires
        stepwise_sorted(s, s.len() as int),
        0 <= i <= j < s.len(),
    ensures
        s[i].time_sent.nanos <= s[j].time_sent.nanos,
    decreases j - i,
{
    if i < j {
        lemma_stepwise_sorted(s, i, j - 1);
        assert(s[j - 1].time_sent.nanos <= s[j].time_sent.nanos);
    }
}

/// Whether the packets are in the order in which they were sent.
pub fn is_sorted_by_time(pkts: &[SentPacket]) -> (r: bool)
    ensures
        r == sorted_by_time(pkts@),
{
    let n: usize = pkts.len();
    let mut i: usize = 1;
    while i < n
        invariant
            1 <= i,
            n == pkts@.len(),
            stepwise_sorted(pkts@, i as int),
        decreases n - i,
    {
        if pkts[i - 1].time_sent.nanos > pkts[i].time_sent.nanos {
            return false;
        }
        i += 1;
    }
    proof {
        assert(stepwise_sorted(pkts@, n as int));
        assert forall|a: int, b: int| 0 <= a <= b < pkts@.len() implies pkts@[a].time_sent.nanos
            <= pkts@[b].time_sent.nanos by {
            lemma_stepwise_sorted(pkts@, a, b);
        }
    }
    true
}

pub fn cutoff(first_rtt_sample_time: Instant, prev_largest_acked_sent: Option<Instant>) -> (r: Instant)
    ensures
        r == cutoff_spec(first_rtt_sample_time, prev_largest_acked_sent),
{
    match prev_largest_acked_sent {
        Some(t) => {
            if t.nanos > first_rtt_sample_time.nanos {
                t
            } else {
                first_rtt_sample_time
            }
        },
        None => first_rtt_sample_time,
    }
}

/// Walks the lost packets once, in the order they were sent, and reports
/// whether any run among them shows persistent congestion.
pub fn scan_for_congested_run(lost: &[SentPacket], cutoff: Instant, pto: Duration) -> (r: bool)
    requires
        sorted_by_time(lost@),
    ensures
        r == has_congested_run(lost@, cutoff, pto),
{
    let n: usize = lost.len();
    let mut idx: usize = 0;
    while idx < n && lost[idx].time_sent.nanos < cutoff.nanos
        invariant
            idx <= n,
            n == lost@.len(),
            forall|k: int| 0 <= k < idx ==> lost@[k].time_sent.nanos < cutoff.nanos,
        decreases n - idx,
    {
        idx += 1;
    }
    let skip: usize = idx;
    let mut prev: Option<u64> = None;
    let mut start: Option<Instant> = None;
    let ghost mut run: int = idx as int;
    let ghost mut first: int = idx as int;
    while idx < n
        invariant
            skip <= idx <= n,
            n == lost@.len(),
            sorted_by_time(lost@),
            forall|k: int| 0 <= k < skip ==> lost@[k].time_sent.nanos < cutoff.nanos,
            skip < n ==> lost@[skip as int].time_sent.nanos >= cutoff.nanos,
            forall|i: int, j: int| j < idx ==> !spans_congestion(lost@, cutoff, pto, i, j),
            skip <= run <= idx,
            idx > skip ==> run < idx,
            idx > skip ==> prev == Some(lost@[idx - 1].pn),
            idx == skip ==> prev.is_none(),
            contiguous(lost@, run, idx - 1),
            run > skip ==> !follows(lost@, run),
            start.is_some() ==> run <= first < idx && lost@[first].marks_congestion() && start
                == Some(lost@[first].time_sent) && forall|k: int|
                run <= k < first ==> !lost@[k].marks_congestion(),
            start.is_none() ==> forall|k: int| run <= k < idx ==> !lost@[k].marks_congestion(),
        decreases n - idx,
    {
        let p = lost[idx];
        let in_sequence = match prev {
            Some(l) => l < u64::MAX && p.pn == l + 1,
            None => false,
        };
        if !in_sequence {
            start = None;
            proof {
                run = idx as int;
            }
        }
        prev = Some(p.pn);
        assert(idx > skip ==> in_sequence == follows(lost@, idx as int));
        assert(contiguous(lost@, run, idx as int));
        // A run that ends at `idx` cannot begin before `run`.
        assert forall|i: int| i < run implies !spans_congestion(lost@, cutoff, pto, i, idx as int) by {
            if 0 <= i && contiguous(lost@, i, idx as int) {
                if run > skip {
                    assert(follows(lost@, run));
                }
            }
        }
        if p.is_congestion_marker() {
            match start {
                Some(t) => {
                    // The packets are in the order of their sending, so
                    // this one was not sent before the run began.
                    assert(lost@[first].time_sent.nanos <= lost@[idx as int].time_sent.nanos);
                    let persistent = match p.time_sent.checked_duration_since(t) {
                        Some(elapsed) => elapsed.exceeds_multiple(pto, PERSISTENT_CONG_THRESH),
                        None => false,
                    };
                    if persistent {
                        proof {
                            assert(lost@[skip as int].time_sent.nanos <= lost@[first].time_sent.nanos);
                            assert(contiguous(lost@, first, idx as int));
                            assert(spans_congestion(lost@, cutoff, pto, first, idx as int));
                        }
                        return true;
                    }
                    assert forall|i: int| run <= i implies !spans_congestion(
                        lost@,
                        cutoff,
                        pto,
                        i,
                        idx as int,
                    ) by {
                        if i < idx && lost@[i].marks_congestion() {
                            assert(first <= i);
                            assert(lost@[first].time_sent.nanos <= lost@[i].time_sent.nanos);
                        }
                    }
                },
                None => {
                    start = Some(p.time_sent);
                    proof {
                        first = idx as int;
                    }
                },
            }
        }
        idx += 1;
    }
    false
}

/// A missing packet number between two lost packets keeps them from
/// bounding a run: runs do not reach across a gap.
pub proof fn law_gap_breaks_run(s: Seq<SentPacket>, cutoff: Instant, pto: Duration, i: int, j: int, k: int)
    requires
        i < k <= j,
        !follows(s, k),
    ensures
        !spans_congestion(s, cutoff, pto, i, j),
{
    if contiguous(s, i, j) {
        assert(follows(s, k));
    }
}

/// With the packets in the order they were sent, a run that shows
/// persistent congestion shows it all the more when it is taken from an
/// earlier marker of the same run: what decides is the time from the first
/// marker of a run to its last.
pub proof fn law_run_extends_back(s: Seq<SentPacket>, cutoff: Instant, pto: Duration, h: int, i: int, j: int)
    requires
        sorted_by_time(s),
        spans_congestion(s, cutoff, pto, i, j),
        0 <= h <= i,
        s[h].marks_congestion(),
        s[h].time_sent.nanos >= cutoff.nanos,
        contiguous(s, h, i),
    ensures
        spans_congestion(s, cutoff, pto, h, j),
{
    assert forall|k: int| h < k <= j implies #[trigger] follows(s, k) by {
        if k <= i {
            assert(contiguous(s, h, i));
        } else {
            assert(contiguous(s, i, j));
        }
    }
}

/// Losses sent before the cutoff, or that neither count against the window
/// nor demand acknowledgement, never open a run; fewer than two losses
/// never make one.
pub proof fn law_runs_need_two_markers(s: Seq<SentPacket>, cutoff: Instant, pto: Duration)
    ensures
        s.len() < 2 ==> !has_congested_run(s, cutoff, pto),
        (forall|i: int| 0 <= i < s.len() ==> !(#[trigger] s[i]).marks_congestion()) ==> !has_congested_run(
            s,
            cutoff,
            pto,
        ),
        (forall|i: int| 0 <= i < s.len() ==> (#[trigger] s[i]).time_sent.nanos < cutoff.nanos)
            ==> !has_congested_run(s, cutoff, pto),
{
}

/// Two consecutive marker packets sent after the cutoff show persistent
/// congestion exactly when more than three probe timeouts lie between them:
/// a gap of exactly three does not, one nanosecond more does.
pub proof fn law_two_losses_boundary(a: SentPacket, b: SentPacket, cutoff: Instant, pto: Duration)
    requires
        a.marks_congestion(),
        b.marks_congestion(),
        b.pn == a.pn + 1,
        cutoff.nanos <= a.time_sent.nanos <= b.time_sent.nanos,
    ensures
        has_congested_run(seq![a, b], cutoff, pto) <==> b.time_sent.nanos - a.time_sent.nanos > 3
            * pto.nanos,
        b.time_sent.nanos - a.time_sent.nanos == 3 * pto.nanos ==> !has_congested_run(
            seq![a, b],
            cutoff,
            pto,
        ),
        b.time_sent.nanos - a.time_sent.nanos == 3 * pto.nanos + 1 ==> has_congested_run(
            seq![a, b],
            cutoff,
            pto,
        ),
{
    let s = seq![a, b];
    assert(s[0] == a && s[1] == b);
    if b.time_sent.nanos - a.time_sent.nanos > 3 * pto.nanos {
        assert(follows(s, 1));
        assert(contiguous(s, 0, 1));
        assert(spans_congestion(s, cutoff, pto, 0, 1));
    } else {
        assert forall|i: int, j: int| !spans_congestion(s, cutoff, pto, i, j) by {
            if 0 <= i < j < s.len() {
                assert(i == 0 && j == 1);
            }
        }
    }
}

} // verus!
