//! The three translations of the bridge: a client's request into a command
//! for the engine, the engine's answer into a notification, and a broadcast
//! of the engine into what one connection is told of it.

pub mod broadcast;
pub mod command;
pub mod response;
