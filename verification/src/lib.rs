//! A routing hub for a shared meeting agenda that several chat platforms edit
//! together, and the scheduler that reminds them of the weekly meeting.
//!
//! The library decides; it does not wait, read files or talk to a platform.
//! A program around it hands it one request or one tick at a time, and gets
//! back the list of what has to be done about it, in order:
//!
//! - `command` reads the text of a chat message as a command;
//! - `agenda` holds the agenda and the text in which users see it;
//! - `address` says which platforms an event is meant for;
//! - `hub` applies one request to the agenda;
//! - `clock` places the weekly meeting in civil time;
//! - `reminder` lets the reminder go out once before each meeting;
//! - `store` says what reading a persisted document can come to.

pub mod address;
pub mod agenda;
pub mod clock;
pub mod command;
pub mod hub;
pub mod reminder;
pub mod store;
