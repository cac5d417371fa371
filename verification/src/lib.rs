//! A poll ledger: administrators open polls, register the options of a poll,
//! restrict a private poll to a list of voters, and every voter casts at most
//! one vote per poll inside the poll's time window.
//!
//! Each operation is a validated change of a few records. The functions under
//! [`methods`] work on the records they are handed; [`ledger`] keeps the records
//! of many polls together and applies an operation in full or not at all.
//! [`model`] says what each operation makes of a ledger, [`laws`] what follows
//! for every series of operations, and [`address`] where a record is kept.

pub mod address;
pub mod identity;
pub mod laws;
pub mod ledger;
pub mod methods;
pub mod model;
pub mod others;
pub mod state;
