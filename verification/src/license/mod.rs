//! Machine-bound, time-bound licensing with an offline grace period.
//!
//! A license is activated once with the entitlement authority, kept as one
//! record on the machine, and validated again and again: with the authority
//! where it answers, and from the record alone, for a bounded number of days,
//! where it does not.

pub mod commands;
pub mod guard;
pub mod laws;
pub mod machine;
pub mod remote;
pub mod storage;
pub mod types;
pub mod validator;
