//! The three kinds of record.

pub mod poll;
pub mod poll_option;
pub mod voter;
