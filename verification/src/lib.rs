//! Chat services for an IRC network: nickname and channel registries, a game
//! of Resistance and channel governance by vote, all driven by chat commands.
//!
//! Every handler is a function from plain values to plain values: it reads the
//! session state and the stored records, and answers with the list of actions
//! to carry out. Nothing here touches a socket or a file.

pub mod config;
pub mod data;
pub mod func;
pub mod namemap;
pub mod shared;
pub mod text;
pub mod wire;
