//! The three records and their operations.

pub mod book;
pub mod user;
pub mod user_book;
