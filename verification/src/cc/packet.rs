//! The record of a sent packet, as far as congestion control reads it.

use vstd::prelude::*;
use crate::cc::time::Instant;

verus! {

/// What the sender's bookkeeping knows of one packet.
#[derive(Clone, Copy, Debug, PartialEq, Eq, Structural)]
pub struct SentPacket {
    /// Packet number, unique and increasing on a path.
    pub pn: u64,
    /// When the packet left.
    pub time_sent: Instant,
    /// Whether the peer must acknowledge it.
    pub ack_eliciting: bool,
    /// Whether it counts against the congestion window.
    pub in_flight: bool,
    /// Size on the wire in bytes.
    pub len: usize,
}

impl SentPacket {
    pub fn new(pn: u64, time_sent: Instant, ack_eliciting: bool, in_flight: bool, len: usize) -> (p: SentPacket)
        ensures
            p == (SentPacket { pn, time_sent, ack_eliciting, in_flight, len }),
    {
        SentPacket { pn, time_sent, ack_eliciting, in_flight, len }
    }

    pub fn pn(&self) -> (r: u64)
        ensures
            r == self.pn,
    {
        self.pn
    }

    pub fn time_sent(&self) -> (r: Instant)
        ensures
            r == self.time_sent,
    {
        self.time_sent
    }

    pub fn ack_eliciting(&self) -> (r: bool)
        ensures
            r == self.ack_eliciting,
    {
        self.ack_eliciting
    }

    pub fn in_flight(&self) -> (r: bool)
        ensures
            r == self.in_flight,
    {
        self.in_flight
    }

    pub fn len(&self) -> (r: usize)
        ensures
            r == self.len,
    {
        self.len
    }

    /// A loss of this packet can open or close a run of persistent congestion.
    pub open spec fn marks_congestion(self) -> bool {
        self.ack_eliciting && self.in_flight
    }

    pub fn is_congestion_marker(&self) -> (r: bool)
        ensures
            r == self.marks_congestion(),
    {
        self.ack_eliciting && self.in_flight
    }
}

} // verus!
