//! Callback trampoline for a foreign-function-interface bridge.
//!
//! A native host process invokes registered functions through an untyped
//! C-level entry point.  This crate models and verifies the logic of that
//! boundary: recovering the strongly-typed function that was erased into a
//! host data slot at registration time, running it inside a scoped execution
//! context behind a panic-containment boundary, and delivering its result to
//! the host under either of two return conventions.

pub mod callback;
pub mod error;
pub mod registry;
pub mod trampoline;
pub mod value;
