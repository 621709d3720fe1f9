//! Verified decision logic for the network side of a mail client.
//!
//! `cc` holds the congestion controller of the client's datagram transport:
//! how many bytes a path may have in flight, and how that limit answers to
//! acknowledgements, losses and congestion marks.
//!
//! `mail` holds the decisions taken around Exchange Web Services operations:
//! how requests are put together, what is read out of responses, and what to
//! do when a server turns the user's credentials down.

pub mod cc;
pub mod mail;

pub use cc::controller::{cwnd_initial, CongestionController};
pub use cc::model::{ControllerModel, CWND_INITIAL_BYTES, PACING_BURST_SIZE};
pub use cc::packet::SentPacket;
pub use cc::persistent::{is_sorted_by_time, PERSISTENT_CONG_THRESH};
pub use cc::pmtud::{Pmtud, CWND_INITIAL_PKTS};
pub use cc::state::ControllerState;
pub use cc::time::{Duration, Instant};
pub use cc::trace::ControllerEvent;
pub use cc::window::{NewReno, WindowGrowthStrategy};
