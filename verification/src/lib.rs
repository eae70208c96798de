//! A folding-based incremental proof engine.
//!
//! The crate drives a multi-step computation through a non-uniform
//! incremental verifiable computation (NIVC) session: it derives structured
//! parameters that bind a family of step-circuit shapes together, folds one
//! step at a time into a running accumulator, optionally precomputes step
//! witnesses ahead of the sequential fold loop, and finally compresses and
//! verifies the resulting proof.
//!
//! The state carried through a session is modelled over plain 64-bit words
//! with wrapping arithmetic, standing in for the scalar field of the
//! underlying folding scheme.

pub mod config;
pub mod digest;
pub mod engine;
pub mod error;
pub mod lang;
pub mod params;
pub mod proving;
pub mod scheduler;
pub mod step;
pub mod words;
