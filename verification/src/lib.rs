//! Verified core of a door-controller that keeps a physical actuator in sync
//! with a remotely held command record.
//!
//! The library holds the logic of the controller: the command record and its
//! JSON wire codec, the bounded actuation plan, the diagnostic pulse patterns,
//! connectivity classification, interpretation of the remote exchanges, and
//! the tick-driven control state machine.  The device-side transports (HTTP,
//! pins, timers) live outside the library and drive the state machine with
//! plain events.

pub mod actuator;
pub mod client;
pub mod codec;
pub mod command;
pub mod control;
pub mod session;
pub mod signal;
