//! The part of path-MTU discovery that congestion control depends on: the
//! datagram size in use, and which packets are probes for a larger one.

use vstd::prelude::*;
use crate::cc::packet::SentPacket;

verus! {

/// Number of full datagrams in the initial congestion window.
pub const CWND_INITIAL_PKTS: usize = 10;

/// Datagram size of a path and the probe that is out for a larger one, if any.
#[derive(Clone, Copy, Debug, PartialEq, Eq, Structural)]
pub struct Pmtud {
    pub mtu: usize,
    pub probe_size: Option<usize>,
}

impl Pmtud {
    /// The datagram size is positive and ten of them can be counted in bytes.
    pub open spec fn wf(self) -> bool {
        0 < self.mtu && self.mtu * CWND_INITIAL_PKTS <= usize::MAX
    }

    /// Whether `p` is the outstanding probe: one is out, and `p` has its size.
    pub open spec fn is_probe_spec(self, p: SentPacket) -> bool {
        self.probe_size == Some(p.len)
    }

    pub fn new(mtu: usize) -> (r: Pmtud)
        requires
            0 < mtu,
            mtu * CWND_INITIAL_PKTS <= usize::MAX,
        ensures
            r.wf(),
            r.mtu == mtu,
            r.probe_size.is_none(),
    {
        Pmtud { mtu, probe_size: None }
    }

    /// Like `new`, for any size: `None` where the size is zero or too large
    /// for ten datagrams to be counted in bytes.
    pub fn try_new(mtu: usize) -> (r: Option<Pmtud>)
        ensures
            r.is_some() <==> 0 < mtu && mtu * CWND_INITIAL_PKTS <= usize::MAX,
            r matches Some(p) ==> p.wf() && p.mtu == mtu && p.probe_size.is_none(),
    {
        if 0 < mtu && mtu <= usize::MAX / CWND_INITIAL_PKTS {
            Some(Pmtud { mtu, probe_size: None })
        } else {
            None
        }
    }

    /// Largest datagram payload the path carries at present.
    pub fn plpmtu(&self) -> (r: usize)
        ensures
            r == self.mtu,
    {
        self.mtu
    }

    pub fn is_probe(&self, p: &SentPacket) -> (r: bool)
        ensures
            r == self.is_probe_spec(*p),
    {
        match self.probe_size {
            Some(size) => p.len == size,
            None => false,
        }
    }

    /// Records that a probe of `size` bytes has been sent.
    pub fn start_probe(&mut self, size: usize)
        ensures
            final(self).mtu == old(self).mtu,
            final(self).probe_size == Some(size),
    {
        self.probe_size = Some(size);
    }

    /// Records that no probe is outstanding any more.
    pub fn stop_probe(&mut self)
        ensures
            final(self).mtu == old(self).mtu,
            final(self).probe_size.is_none(),
    {
        self.probe_size = None;
    }
}

} // verus!
