//! The decisions of `pa`, a runner that starts processes side by side, restarts them by policy
//! and labels what they print.
//!
//! Every decision is a function from plain values to plain values. Work that waits on the
//! outside (a file, a process, a timer, a signal) is driven by small state machines: the state
//! names what is to be done next, the caller does it and hands back an event.
pub mod child;
pub mod command;
pub mod config;
pub mod console;
pub mod error;
pub mod job;
pub mod supervisor;
pub mod table;
pub mod text;
