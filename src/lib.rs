//! A client-side controller for one top-level window: capability discovery,
//! the configure/acknowledge handshake, buffer provisioning and input routing,
//! written as a verified state machine that emits protocol commands.

pub mod capability;
pub mod frame;
pub mod states;
pub mod input;
pub mod session;
pub mod laws;
