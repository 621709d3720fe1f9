use congestion_control::{
    CongestionController, Duration, Instant, NewReno, Pmtud, SentPacket, PERSISTENT_CONG_THRESH,
};

const MDS: usize = 1452;
const BASE: u64 = 1_000_000_000_000;
const RTT: u64 = 100_000_000;
const PTO: u64 = RTT;
const ZERO: u64 = 0;
const EPSILON: u64 = 1;
const GAP: u64 = 1_000_000_000;
/// The largest time between packets without causing persistent congestion.
const SUB_PC: u64 = 100_000_000 * (PERSISTENT_CONG_THRESH as u64);
/// The minimum time between packets to cause persistent congestion.
const PC: u64 = 100_000_000 * (PERSISTENT_CONG_THRESH as u64) + 1;

fn now() -> Instant {
    Instant::from_nanos(BASE)
}

fn at(offset: u64) -> Instant {
    Instant::from_nanos(BASE + offset)
}

fn controller() -> CongestionController<NewReno> {
    CongestionController::new(NewReno::default(), Pmtud::new(MDS))
}

fn lost(pn: u64, ack_eliciting: bool, t: u64) -> SentPacket {
    SentPacket::new(pn, at(t), ack_eliciting, ack_eliciting, 100)
}

fn persistent_congestion(lost_packets: &[SentPacket], persistent_expected: bool) {
    let mut cc = controller();
    let reduced_cwnd = cc.cwnd_initial() / 2;
    for p in lost_packets {
        cc.on_packet_sent(p, now());
    }

    cc.on_packets_lost(Some(now()), None, Duration::from_nanos(PTO), lost_packets, now());

    let persistent = if cc.cwnd() == reduced_cwnd {
        false
    } else if cc.cwnd() == cc.cwnd_min() {
        true
    } else {
        panic!("unexpected cwnd");
    };
    assert_eq!(persistent, persistent_expected);
}

/// A span of exactly the threshold only reduces the window on loss.
#[test]
fn persistent_congestion_none() {
    persistent_congestion(&[lost(1, true, ZERO), lost(2, true, SUB_PC)], false);
}

/// A span of just more than the threshold causes persistent congestion.
#[test]
fn persistent_congestion_simple() {
    persistent_congestion(&[lost(1, true, ZERO), lost(2, true, PC)], true);
}

/// Both packets need to be ack-eliciting.
#[test]
fn persistent_congestion_non_ack_eliciting() {
    persistent_congestion(&[lost(1, false, ZERO), lost(2, true, PC)], false);
    persistent_congestion(&[lost(1, true, ZERO), lost(2, false, PC)], false);
}

/// Packets in the middle, of any type, are fine.
#[test]
fn persistent_congestion_middle() {
    persistent_congestion(
        &[lost(1, true, ZERO), lost(2, false, RTT), lost(3, true, PC)],
        true,
    );
    persistent_congestion(
        &[lost(1, true, ZERO), lost(2, true, RTT), lost(3, true, PC)],
        true,
    );
}

/// Leading non-ack-eliciting packets are skipped.
#[test]
fn persistent_congestion_leading_non_ack_eliciting() {
    persistent_congestion(
        &[lost(1, false, ZERO), lost(2, true, RTT), lost(3, true, PC)],
        false,
    );
    persistent_congestion(
        &[lost(1, false, ZERO), lost(2, true, RTT), lost(3, true, RTT + PC)],
        true,
    );
}

/// Trailing non-ack-eliciting packets are not relevant.
#[test]
fn persistent_congestion_trailing_non_ack_eliciting() {
    persistent_congestion(
        &[lost(1, true, ZERO), lost(2, true, PC), lost(3, false, PC + EPSILON)],
        true,
    );
    persistent_congestion(
        &[lost(1, true, ZERO), lost(2, true, SUB_PC), lost(3, false, PC)],
        false,
    );
}

/// Gaps in the middle, of any type, restart the count.
#[test]
fn persistent_congestion_gap_reset() {
    persistent_congestion(&[lost(1, true, ZERO), lost(3, true, PC)], false);
    persistent_congestion(
        &[
            lost(1, true, ZERO),
            lost(2, true, RTT),
            lost(4, true, GAP),
            lost(5, true, GAP + PTO * (PERSISTENT_CONG_THRESH as u64)),
        ],
        false,
    );
}

/// A span either side of a gap will cause persistent congestion.
#[test]
fn persistent_congestion_gap_or() {
    persistent_congestion(
        &[
            lost(1, true, ZERO),
            lost(2, true, PC),
            lost(4, true, GAP),
            lost(5, true, GAP + PTO),
        ],
        true,
    );
    persistent_congestion(
        &[
            lost(1, true, ZERO),
            lost(2, true, PTO),
            lost(4, true, GAP),
            lost(5, true, GAP + PC),
        ],
        true,
    );
}

/// A gap only restarts after an ack-eliciting packet.
#[test]
fn persistent_congestion_gap_non_ack_eliciting() {
    persistent_congestion(
        &[
            lost(1, true, ZERO),
            lost(2, true, PTO),
            lost(4, false, GAP),
            lost(5, true, GAP + PC),
        ],
        false,
    );
    persistent_congestion(
        &[
            lost(1, true, ZERO),
            lost(2, true, PTO),
            lost(4, false, GAP),
            lost(5, true, GAP + RTT),
            lost(6, true, GAP + RTT + SUB_PC),
        ],
        false,
    );
    persistent_congestion(
        &[
            lost(1, true, ZERO),
            lost(2, true, PTO),
            lost(4, false, GAP),
            lost(5, true, GAP + RTT),
            lost(6, true, GAP + RTT + PC),
        ],
        true,
    );
}

/// A time in multiples of the probe timeout.
fn by_pto(t: u32) -> Instant {
    at(PTO * (t as u64))
}

/// Packets that will be made lost, sent at the given multiples of the
/// probe timeout.
fn make_lost(times: &[u32]) -> Vec<SentPacket> {
    times
        .iter()
        .enumerate()
        .map(|(i, &t)| SentPacket::new(u64::try_from(i).unwrap(), by_pto(t), true, true, 1000))
        .collect::<Vec<_>>()
}

/// Runs the detection with the time of the largest acknowledged and of the
/// first RTT sample given in multiples of the probe timeout.
fn persistent_congestion_by_pto(
    mut cc: CongestionController<NewReno>,
    last_ack: u32,
    rtt_time: u32,
    lost: &[SentPacket],
) -> bool {
    let now = now();
    let pto = Duration::from_nanos(PTO);
    assert_eq!(cc.cwnd(), cc.cwnd_initial());

    let last_ack = Some(by_pto(last_ack));
    let rtt_time = Some(by_pto(rtt_time));

    // Persistent congestion is never declared without an RTT sample.
    assert!(!cc.detect_persistent_congestion(None, None, pto, lost, now));
    assert_eq!(cc.cwnd(), cc.cwnd_initial());
    assert!(!cc.detect_persistent_congestion(None, last_ack, pto, lost, now));
    assert_eq!(cc.cwnd(), cc.cwnd_initial());

    let found = cc.detect_persistent_congestion(rtt_time, last_ack, pto, lost, now);
    assert_eq!(found, cc.cwnd() == cc.cwnd_min());
    found
}

/// No persistent congestion can be had if there are no lost packets.
#[test]
fn persistent_congestion_no_lost() {
    let lost = make_lost(&[]);
    assert!(!persistent_congestion_by_pto(controller(), 0, 0, &lost));
}

/// No persistent congestion can be had if there is only one lost packet.
#[test]
fn persistent_congestion_one_lost() {
    let lost = make_lost(&[1]);
    assert!(!persistent_congestion_by_pto(controller(), 0, 0, &lost));
}

/// Persistent congestion can't happen based on old packets.
#[test]
fn persistent_congestion_past() {
    // Packets sent prior to either the last acknowledged or the first RTT
    // sample are not considered.  So 0 is ignored.
    let lost = make_lost(&[0, PERSISTENT_CONG_THRESH + 1, PERSISTENT_CONG_THRESH + 2]);
    assert!(!persistent_congestion_by_pto(controller(), 1, 1, &lost));
    assert!(!persistent_congestion_by_pto(controller(), 0, 1, &lost));
    assert!(!persistent_congestion_by_pto(controller(), 1, 0, &lost));
}

/// Persistent congestion doesn't start unless the packet is ack-eliciting.
#[test]
fn persistent_congestion_ack_eliciting() {
    let mut lost = make_lost(&[1, PERSISTENT_CONG_THRESH + 2]);
    lost[0] = SentPacket::new(lost[0].pn(), lost[0].time_sent(), false, false, lost[0].len());
    assert!(!persistent_congestion_by_pto(controller(), 0, 0, &lost));
}

/// The first lost packet needs to have a time greater than the previously
/// acknowledged packet and the first RTT sample, and the difference in
/// times needs to be greater than the threshold.
#[test]
fn persistent_congestion_min() {
    let lost = make_lost(&[1, PERSISTENT_CONG_THRESH + 2]);
    assert!(persistent_congestion_by_pto(controller(), 0, 0, &lost));
}

/// Not having a previous largest acknowledged also results in detecting
/// persistent congestion.
#[test]
fn persistent_congestion_no_prev_ack_newreno() {
    let lost = make_lost(&[1, PERSISTENT_CONG_THRESH + 2]);
    let mut cc = controller();
    cc.detect_persistent_congestion(Some(by_pto(0)), None, Duration::from_nanos(PTO), &lost, now());
    assert_eq!(cc.cwnd(), cc.cwnd_min());
}

/// Exactly three probe timeouts between two losses are not persistent
/// congestion, for any probe timeout; one nanosecond more is.
#[test]
fn persistent_congestion_boundary_for_several_timeouts() {
    for pto in [1u64, 7, 1_000, 25_000_000, 100_000_000, 3_000_000_000] {
        let exactly = [lost(1, true, ZERO), lost(2, true, 3 * pto)];
        let mut cc = controller();
        assert!(!cc.detect_persistent_congestion(Some(now()), None, Duration::from_nanos(pto), &exactly, now()));
        assert_eq!(cc.cwnd(), cc.cwnd_initial());

        let beyond = [lost(1, true, ZERO), lost(2, true, 3 * pto + 1)];
        let mut cc = controller();
        assert!(cc.detect_persistent_congestion(Some(now()), None, Duration::from_nanos(pto), &beyond, now()));
        assert_eq!(cc.cwnd(), cc.cwnd_min());
        assert_eq!(cc.acked_bytes(), 0);
    }
}

/// A probe timeout so long that three of them exceed the clock's range never
/// gives persistent congestion, and does not overflow.
#[test]
fn persistent_congestion_with_huge_timeout() {
    let packets = [
        SentPacket::new(1, Instant::from_nanos(0), true, true, 100),
        SentPacket::new(2, Instant::from_nanos(u64::MAX), true, true, 100),
    ];
    let mut cc = controller();
    let pto = Duration::from_nanos(u64::MAX / 2);
    assert!(!cc.detect_persistent_congestion(Some(Instant::from_nanos(0)), None, pto, &packets, now()));
}

/// Packets that do not count against the window keep a run together but
/// neither open nor close it.
#[test]
fn persistent_congestion_needs_in_flight_markers() {
    let not_in_flight = |pn: u64, t: u64| SentPacket::new(pn, at(t), true, false, 100);
    let mut cc = controller();
    let pto = Duration::from_nanos(PTO);
    let packets = [not_in_flight(1, ZERO), lost(2, true, RTT), lost(3, true, PC)];
    assert!(!cc.detect_persistent_congestion(Some(now()), None, pto, &packets, now()));
    let packets = [lost(1, true, ZERO), not_in_flight(2, RTT), lost(3, true, PC)];
    assert!(cc.detect_persistent_congestion(Some(now()), None, pto, &packets, now()));
}

/// The later of the first RTT sample and the previous largest acknowledged
/// decides which losses count.
#[test]
fn persistent_congestion_cutoff_is_the_later_time() {
    let packets = make_lost(&[2, 6]);
    let pto = Duration::from_nanos(PTO);
    // Both before the first packet: found.
    let mut cc = controller();
    assert!(cc.detect_persistent_congestion(Some(by_pto(1)), Some(by_pto(2)), pto, &packets, now()));
    // The first packet is sent before the last acknowledged one.
    let mut cc = controller();
    assert!(!cc.detect_persistent_congestion(Some(by_pto(1)), Some(by_pto(3)), pto, &packets, now()));
    // The first packet is sent before the first RTT sample.
    let mut cc = controller();
    assert!(!cc.detect_persistent_congestion(Some(by_pto(3)), Some(by_pto(1)), pto, &packets, now()));
}
