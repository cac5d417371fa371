//! The four operations, each on the records it is handed.

pub mod cast_vote;
pub mod create_poll;
pub mod create_poll_option;
pub mod whitelist;
