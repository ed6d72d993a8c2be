//! Execution core of a small interactive command interpreter.
//!
//! Given an already-parsed command tree, the library decides what to run, in
//! what order, with which input/output channels, and how exit statuses combine
//! across control operators (sequencing, conditional chaining, pipelines).
//! Process spawning, directory changes and search-path lookups are operating
//! system work: the executor is a step machine that hands such requests to its
//! driver as explicit actions and receives the outcomes back as events, so
//! that every decision the core makes is stated and checked here.

pub mod status;
pub mod ast;
pub mod ioctx;
pub mod builtin;
pub mod exec;
pub mod laws;
