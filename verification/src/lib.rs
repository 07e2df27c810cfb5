//! Verified core of a terminal front end for a remote, process-isolated
//! debugger.
//!
//! The library holds the parts that can be reasoned about as pure state
//! transitions: the snapshot data model, the single-consumer event queue that
//! merges the producers' emissions, and the application state machine driven
//! by that queue. The surrounding process — terminal handling, the debuggee
//! subprocess, and the control-protocol transport — lives outside and feeds
//! the library plain values.

pub mod app;
pub mod event;
pub mod ui;
pub mod update;
