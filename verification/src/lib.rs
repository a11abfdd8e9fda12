//! Host-side orchestration of a two-stage sandboxed document conversion.
//!
//! An untrusted document is rendered to pixels in one confined container and
//! the pixels are re-encoded to a fresh PDF in a second, independently started
//! one. This crate holds everything that is decided on the host: which runtime
//! to call, with which arguments, how a finished sandbox is judged, and how a
//! conversion moves from one phase to the next. It performs no I/O itself; a
//! driver carries out the actions it asks for and reports back what happened.

pub mod confinement;
pub mod error;
pub mod guarantees;
pub mod invocation;
pub mod pipeline;
pub mod runtime;
