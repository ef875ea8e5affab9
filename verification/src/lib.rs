//! Idle-watch: a verified core for an idle-detection daemon.
//!
//! The library models the two pieces of the daemon that carry its logic:
//! the bridge that talks to the init system's control bus (acquiring a bus
//! handle, invoking remote methods, parsing typed replies, and releasing
//! every resource on every path), and the state machine that accumulates
//! consecutive idle ticks and decides when to request a power action.
//! The process around it (timers, the raw bus binding, logging) performs
//! the commands this library emits and feeds the results back as events.

pub mod bridge;
pub mod cli;
pub mod idle;
pub mod netscan;
pub mod sessions;
pub mod text;
