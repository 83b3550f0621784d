//! A terminal multi-counter: a row of bounded counters, exactly one of which
//! holds keyboard focus at any time, driven by single-key commands.
//!
//! This crate holds the application's state machine, fully verified: the
//! counters with their `0..=2` value range, the circular focus movement, and
//! the dispatch of one input event at a time. Terminal setup, the blocking
//! event loop and widget drawing live in the surrounding program, which feeds
//! this crate plain events and reads plain state back.

pub mod app;
pub mod counter;
pub mod errors;
