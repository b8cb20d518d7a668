//! Deployment configuration loading and a resilient retry policy for
//! remote procedure calls.
//!
//! The crate has two halves. The configuration half merges a parsed
//! settings file with environment overrides and validates the result into
//! one immutable snapshot. The policy half turns the snapshot's backoff
//! parameters into a schedule of retry delays and classifies remote-call
//! failures as worth retrying or not.

pub mod backoff;
pub mod chars;
pub mod config;
pub mod decimal;
pub mod duration;
pub mod rpc;
pub mod settings;
