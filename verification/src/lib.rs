//! An in-memory to-do list: items with a title, a description, an optional
//! expiration date, and a completion flag, kept in insertion order and
//! addressed by position.

pub mod clock;
pub mod command;
pub mod date;
pub mod digits;
pub mod item;
pub mod store;
