//! Admission policy for pod workloads: no container, init container, or
//! ephemeral container may run in privileged mode.
//!
//! The workload model is plain data; the evaluator is a pure function over it
//! with an exact contract; the entry point parses an incoming resource
//! description and hands the model to the evaluator.

pub mod buffer;
pub mod entry;
pub mod evaluator;
pub mod workload;
