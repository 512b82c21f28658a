//! A local-network group chat node: the message model, its wire codec, the
//! command protocol and the coordinator that keeps track of the one topic the
//! node is subscribed to.

pub mod client;
pub mod codec;
pub mod command;
pub mod errors;
pub mod file;
pub mod message;
pub mod peer;
pub mod provider;
pub mod swarm_manager;
pub mod wire;
