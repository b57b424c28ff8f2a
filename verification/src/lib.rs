//! Core logic of a small desktop chat application: the schema-migration
//! registry handed to the database plugin at startup, the bootstrap state
//! machine that registers the runtime plugins and starts the event loop,
//! and the one invocable command, `greet`.
//!
//! The native application shell, its plugins and its event loop are external
//! collaborators; the surrounding binary drives them and calls into this
//! crate for every decision and every value it hands them.

pub mod bootstrap;
pub mod greeting;
pub mod migrations;

pub use greeting::greet;
pub use migrations::get_migrations;
