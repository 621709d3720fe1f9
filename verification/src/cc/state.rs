//! The five states of the controller.

use vstd::prelude::*;

verus! {

#[derive(Clone, Copy, Debug, PartialEq, Eq, Structural)]
pub enum ControllerState {
    /// The window grows by every byte acknowledged.
    SlowStart,
    /// The window grows as the strategy allows.
    CongestionAvoidance,
    /// Congestion was just declared and nothing has been sent since. The next
    /// packet sent marks where the recovery period begins.
    RecoveryStart,
    /// In a recovery period whose first packet has been sent.
    Recovery,
    /// The window was just cut to its floor. Like `RecoveryStart`, this lasts
    /// until the next packet is sent.
    PersistentCongestion,
}

impl ControllerState {
    pub open spec fn in_recovery_spec(self) -> bool {
        self == ControllerState::RecoveryStart || self == ControllerState::Recovery
    }

    pub open spec fn transient_spec(self) -> bool {
        self == ControllerState::RecoveryStart || self == ControllerState::PersistentCongestion
    }

    /// The state that a transient state gives way to when a packet is sent;
    /// any other state stays.
    pub open spec fn resolved(self) -> ControllerState {
        match self {
            ControllerState::PersistentCongestion => ControllerState::SlowStart,
            ControllerState::RecoveryStart => ControllerState::Recovery,
            s => s,
        }
    }

    pub fn in_recovery(self) -> (r: bool)
        ensures
            r == self.in_recovery_spec(),
    {
        matches!(self, ControllerState::RecoveryStart | ControllerState::Recovery)
    }

    pub fn in_slow_start(self) -> (r: bool)
        ensures
            r == (self == ControllerState::SlowStart),
    {
        self == ControllerState::SlowStart
    }

    pub fn transient(self) -> (r: bool)
        ensures
            r == self.transient_spec(),
    {
        matches!(self, ControllerState::RecoveryStart | ControllerState::PersistentCongestion)
    }

    /// Leaves a transient state for the state it stands in for.
    pub fn update(&mut self)
        requires
            old(self).transient_spec(),
        ensures
            *final(self) == old(self).resolved(),
            !final(self).transient_spec(),
    {
        *self = match *self {
            ControllerState::PersistentCongestion => ControllerState::SlowStart,
            _ => ControllerState::Recovery,
        };
    }
}

} // verus!
