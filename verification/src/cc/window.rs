//! The arithmetic of growing and shrinking the window, kept apart from the
//! controller so that algorithms can be exchanged.

use vstd::prelude::*;
use crate::cc::time::{Duration, Instant};

verus! {

/// An algorithm that says how fast the window grows and how far it falls.
///
/// Each operation is described by a specification function that gives both
/// what the operation returns and the strategy it leaves behind, so that a
/// controller built on a strategy is a function of its inputs.
pub trait WindowGrowthStrategy: Sized {
    /// The strategy after `bytes_needed_for_increase`, and the byte count it
    /// returns.
    spec fn increase_step(
        self,
        curr_cwnd: int,
        new_acked_bytes: int,
        min_rtt: Duration,
        max_datagram_size: int,
        now: Instant,
    ) -> (Self, nat);

    /// The strategy after `reduce_window`, the window it returns and the
    /// acknowledged-byte credit it returns.
    spec fn reduce_step(self, curr_cwnd: int, acked_bytes: int, max_datagram_size: int) -> (
        Self,
        nat,
        nat,
    );

    /// The strategy after `on_app_limited`.
    spec fn app_limited_step(self) -> Self;

    /// How many acknowledged bytes must be collected before the window may
    /// grow by one datagram. Never zero.
    fn bytes_needed_for_increase(
        &mut self,
        curr_cwnd: usize,
        new_acked_bytes: usize,
        min_rtt: Duration,
        max_datagram_size: usize,
        now: Instant,
    ) -> (needed: usize)
        requires
            curr_cwnd > 0,
        ensures
            (*final(self), needed as nat) == old(self).increase_step(
                curr_cwnd as int,
                new_acked_bytes as int,
                min_rtt,
                max_datagram_size as int,
                now,
            ),
            needed > 0,
    ;

    /// The window and the credit to continue with after congestion. The
    /// window may come out arbitrarily small: the caller applies the floor.
    fn reduce_window(&mut self, curr_cwnd: usize, acked_bytes: usize, max_datagram_size: usize) -> (r: (
        usize,
        usize,
    ))
        ensures
            (*final(self), r.0 as nat, r.1 as nat) == old(self).reduce_step(
                curr_cwnd as int,
                acked_bytes as int,
                max_datagram_size as int,
            ),
    ;

    /// Told when acknowledgements arrive for a window that the application
    /// did not fill.
    fn on_app_limited(&mut self)
        ensures
            *final(self) == old(self).app_limited_step(),
    ;
}

/// Additive increase, multiplicative decrease: one datagram more per window
/// acknowledged, half the window on congestion.
#[derive(Clone, Copy, Debug, PartialEq, Eq, Structural)]
pub struct NewReno {}

impl NewReno {
    pub fn new() -> (r: NewReno)
        ensures
            r == (NewReno {  }),
    {
        NewReno {  }
    }
}

impl Default for NewReno {
    fn default() -> (r: NewReno)
        ensures
            r == (NewReno {  }),
    {
        NewReno {  }
    }
}

impl WindowGrowthStrategy for NewReno {
    open spec fn increase_step(
        self,
        curr_cwnd: int,
        new_acked_bytes: int,
        min_rtt: Duration,
        max_datagram_size: int,
        now: Instant,
    ) -> (Self, nat) {
        (self, curr_cwnd as nat)
    }

    open spec fn reduce_step(self, curr_cwnd: int, acked_bytes: int, max_datagram_size: int) -> (
        Self,
        nat,
        nat,
    ) {
        (self, (curr_cwnd / 2) as nat, 0)
    }

    open spec fn app_limited_step(self) -> Self {
        self
    }

    fn bytes_needed_for_increase(
        &mut self,
        curr_cwnd: usize,
        new_acked_bytes: usize,
        min_rtt: Duration,
        max_datagram_size: usize,
        now: Instant,
    ) -> (needed: usize) {
        curr_cwnd
    }

    fn reduce_window(&mut self, curr_cwnd: usize, acked_bytes: usize, max_datagram_size: usize) -> (r: (
        usize,
        usize,
    )) {
        (curr_cwnd / 2, 0)
    }

    fn on_app_limited(&mut self) {
    }
}

} // verus!
