//! The command line: what the lines that a user types mean, and what is answered.
pub mod commands;
pub mod conversation;
pub mod words;
