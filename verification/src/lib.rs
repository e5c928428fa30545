//! Verified core of an input-remapping daemon.
//!
//! The daemon grabs physical input devices exclusively, runs a readiness
//! loop over their descriptors, and replays computed events through a
//! synthetic virtual device while supervising external helper processes.
//! This crate holds the decision and encoding logic of that daemon:
//! event record layout, device-capture evaluation, the virtual-device
//! capability plan, the loop control state machine, and the job registry.
//! The thin unverified shell around it performs the actual system calls
//! and hosts the scripting engine.

pub mod bridge;
pub mod capture;
pub mod event;
pub mod multiplexer;
pub mod supervisor;
pub mod uinput;

pub use event::InputEvent;
