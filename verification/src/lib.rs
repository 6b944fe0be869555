//! Core of a streaming map-reduce executor.
//!
//! A caller feeds vertices into a pool of workers; each worker applies a
//! user-supplied `map` function to every vertex and a user-supplied `reduce`
//! function to pairs of intermediate values. A single dispatcher pairs worker
//! outputs opportunistically, holding at most one unpaired intermediate (the
//! *carry*), tracks the number of in-flight tasks, and decides when the run
//! may terminate. This crate holds the verified decision logic: the
//! dispatcher state machine, the worker-side task handling, the error
//! taxonomy, and the run configuration. The surrounding process (threads,
//! channels, the scripting interpreter) drives these functions event by
//! event.

pub mod config;
pub mod dispatcher;
pub mod errors;
pub mod fold;
pub mod laws;
pub mod task;
