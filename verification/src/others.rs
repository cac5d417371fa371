//! Limits and error kinds shared by all operations.

pub mod constants;
pub mod errors;
