//! Keeps a host's default IPv4 route pinned to a chosen gateway.
//!
//! The crate holds the decisions of the route keeper as verified functions on
//! plain values: how command-line arguments are read, how the desired route is
//! derived from the local interfaces, when a poll of the routing table calls
//! for a repair, and how the event-driven reconciler moves between its states.
//! Talking to the operating system is left to the caller.

pub mod address;
pub mod args;
pub mod gateway;
pub mod interfaces;
pub mod maintenance;
pub mod number;
pub mod reconciler;
pub mod route;
pub mod text;
