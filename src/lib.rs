//! Startup composition for the MeatyCapture desktop shell.
//!
//! The shell registers a fixed set of capability plugins with the host
//! runtime, gated by the class of the target platform, and then hands
//! control to the runtime's event loop. This crate decides which plugins are
//! registered, in which order, and what a failed start turns into.
pub mod platform;
pub mod capability;
pub mod config;
pub mod launch;
