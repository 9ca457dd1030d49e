//! Decision logic of a chat bot that reports bandwidth usage.
//!
//! The bot fetches a usage summary from a URL that a chat supplies, renders
//! it as a short report and remembers, per chat, the last URL that worked.
//! This crate holds everything the bot decides or computes; sending and
//! receiving is left to the program around it.

pub mod decimal;
pub mod fetch;
pub mod handler;
pub mod report;
pub mod store;
