//! Firmware-style fault signalling and serial polling logic.
//!
//! Two cooperating components, modelled free of hardware detail:
//!
//! * the *signal encoder*, which turns a small status code into an
//!   indefinitely repeating on/off pulse schedule on one binary output, and
//! * the *serial command responder*, which services one inbound frame per
//!   activation, answers the 4-byte `poll` command with the most recently
//!   published reply payload, and halts permanently on any fatal I/O fault.
//!
//! The hardware itself (pins, timers, the serial peripheral) lives outside
//! this crate; callers perform the physical reads, writes and delays and feed
//! the observed outcomes back into the state machines defined here.

pub mod encoder;
pub mod responder;
pub mod slot;
pub mod status;
