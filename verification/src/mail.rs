//! Decisions taken around Exchange Web Services operations.
//!
//! Talking to the server and to the user is left to the caller. What is
//! here are the parts in between: building the request for an operation,
//! reading the outcome out of the response, and choosing the next step.

pub mod auth;
pub mod bridge;
pub mod folders;
pub mod junk;
pub mod send;
