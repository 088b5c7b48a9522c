//! Terminal session management: the decisions behind a pseudo-terminal
//! session manager, stated over mathematical models and verified.
//!
//! The crate holds the rules of the manager and none of its I/O. A host opens
//! pseudo-terminals, spawns shells and moves bytes; it asks this crate what a
//! request means, what to register, what to tell the client and when a
//! session has ended.

pub mod messages;
pub mod error;
pub mod text;
pub mod paths;
pub mod launch;
pub mod registry;
pub mod pump;
pub mod surface;
pub mod laws;
pub mod ident;
pub mod command;
pub mod startup;
pub mod workspace;
pub mod listing;
pub mod sorting;
