//! A typed data-access layer for a personal reading tracker: users, books and
//! the per-(user, book) reading state that links them.
//!
//! The library never talks to a database itself. Every operation is split in
//! two halves: the statement to run (a [`statement::Command`] or a
//! [`statement::Query`]) and the meaning of what the database answered. The
//! caller owns the persistence handle and carries the statement to it.
//!
//! - [`models`] holds the three records, their builders, their rows and the
//!   two halves of each operation.
//! - [`status`] maps the reading status to its stored token and back.
//! - [`statement`], [`value`] and [`reply`] are what crosses the boundary:
//!   statement text and parameters on the way out, outcomes and rows on the
//!   way back.
//! - [`schema`] says what the persisted tables do with each statement, and
//!   [`laws`] proves what follows for the operations taken together.
//! - [`store`] keeps the tables in memory and runs the statements exactly as
//!   [`schema`] says, on [`table`].
//! - [`factories`] makes records of made-up data.

pub mod error;
pub mod factories;
pub mod laws;
pub mod models;
pub mod reply;
pub mod schema;
pub mod statement;
pub mod status;
pub mod store;
pub mod table;
pub mod timestamp;
pub mod value;
