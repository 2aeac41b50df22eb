//! A verified core for an Open Service Broker API command-line client.
//!
//! The broker speaks HTTP; everything here is the logic around those calls:
//! resolving human-readable service and plan names against a catalog,
//! parsing `key=value` arguments, rendering request bodies and equivalent
//! curl commands, driving the provision and bind lifecycles as explicit
//! state machines, and polling an asynchronous operation until it reaches
//! a terminal state. The I/O itself (HTTP, the local binding cache, the
//! terminal) lives outside the library and is driven by the actions these
//! state machines emit.

pub mod catalog;
pub mod commands;
pub mod curl;
pub mod flows;
pub mod gateway;
pub mod json;
pub mod outputs;
pub mod params;
pub mod poll;
pub mod requests;
