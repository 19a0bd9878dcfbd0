//! Bootstraps and supervises a small local blockchain development stack.
//!
//! The library holds the decisions: which external programs to run, with
//! which arguments, in which order, and what to do when one of them fails.
//! A driver performs the requested actions and reports what happened.

pub mod chain;
pub mod command;
pub mod dependency;
pub mod laws;
pub mod service;
pub mod signal;
pub mod supervisor;
