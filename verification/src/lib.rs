//! Change detection over a table of operating-system notifications.
//!
//! The crate holds the two pieces of the monitor that carry policy: the
//! cursor that decides which rows are new on each poll, and the decoder that
//! turns a row's binary property-list payload into a [`database::Notification`].
//! Reading the table, sleeping between polls and delivering what was decoded
//! are left to the program that embeds this library.

pub mod daemon;
pub mod database;
pub mod decoder;
pub mod payload;
pub mod store;
