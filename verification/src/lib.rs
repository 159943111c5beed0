//! Runtime core of a desktop bridge between a hardware slider controller and a
//! software backend.
//!
//! The crate owns two pieces of process-wide state -- the active configuration
//! and the active bridging-engine instance -- and mediates between named UI
//! events and that state.  Physical I/O (the UI toolkit's event bus, the tray
//! and window presenter, durable storage) stays outside: handlers here return
//! explicit [`router::Action`] values that the surrounding process performs.

pub mod config;
pub mod laws;
pub mod lifecycle;
pub mod orchestrator;
pub mod router;
