//! Decision engine for routing a native build-tool invocation either into an
//! isolated, architecture-matched container or straight through to the host.
//!
//! The library holds the pure decision logic: classifying platform triples and
//! subcommand verbs, resolving toolchain names, rewriting argument lists, and
//! the dispatch gates that pick the execution path. All process spawning,
//! environment reading and JSON decoding live outside and hand this crate
//! plain values.

pub mod args;
pub mod engine;
pub mod metadata;
pub mod platform;
pub mod strings;
pub mod subcommand;
