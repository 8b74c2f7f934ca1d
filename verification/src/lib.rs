//! Relay of observed input events from instrumented processes to one collector.
//!
//! The crate holds the decisions of the relay as verified, I/O-free code:
//! the wire framing ([`frame`]), the sender's bounded retry policy
//! ([`client`]), the collector's accept and read policies ([`server`]), the
//! life cycle of the event registrations ([`capture`]), the text of the
//! relayed lines ([`event`], [`decimal`]) and what both sides agree on ahead
//! of time ([`endpoint`]). The caller performs the operating system calls
//! and reports their outcomes back.

pub mod capture;
pub mod client;
pub mod decimal;
pub mod endpoint;
pub mod event;
pub mod frame;
pub mod server;
