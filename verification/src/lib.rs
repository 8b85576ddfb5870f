//! The sync bridge of the WebExtension `storage.sync` store.
//!
//! Every operation of the bridge is a session: a script of steps that the
//! embedding application performs against its database, one at a time, feeding
//! each answer back. The session decides what comes next. Nothing in this crate
//! touches a database, and every decision it takes is verified.
//!
//! What the operations do to the tables over a whole run is stated in [`laws`],
//! against the [`model`]. What each call promises is stated in [`promises`] for the
//! engine, in [`answers`] for sessions and replies, and in [`crossing`] for the
//! bridge.

pub mod action;
pub mod answers;
pub mod bridge;
pub mod crossing;
pub mod engine;
pub mod error;
pub mod host;
pub mod laws;
pub mod model;
pub mod promises;
pub mod reply;
pub mod session;
pub mod weak;
