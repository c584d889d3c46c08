//! Exposes the state of configured GPIO input pins: a validated pin
//! configuration, a registry of opened pin handles, and the read operation
//! that answers a request for one input pin's value.
pub mod config;
mod hardware;
pub mod registry;
pub mod read;
