//! Validation of the raw command-line input of a path-tracing tool into one
//! consistent configuration value, or the first rule that the input breaks.

pub mod types;
pub mod validate;
pub mod duration;
pub mod config;
pub mod laws;
