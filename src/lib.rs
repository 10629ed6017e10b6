//! A commit-reveal protocol for rock-paper-scissors between two parties.

pub mod hand;
pub mod message;
pub mod party;
