//! Error taxonomy of the `gccrs` build driver: one error type that every
//! subsystem (argument translation, process invocation, config dump parsing)
//! reports into, with lossless conversions from the lower-level failures.

pub mod error;

pub use error::{Category, Error};
