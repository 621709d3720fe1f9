//! Loss-based congestion control for a reliable datagram transport.
//!
//! The controller decides how many unacknowledged bytes a path may carry. It
//! reacts to packets being sent, acknowledged, lost, marked by the network or
//! discarded, and delegates the arithmetic of growing and shrinking the window
//! to a pluggable strategy.

pub mod controller;
pub mod laws;
pub mod model;
pub mod packet;
pub mod persistent;
pub mod pmtud;
pub mod state;
pub mod time;
pub mod trace;
pub mod window;
