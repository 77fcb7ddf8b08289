//! The operations, each with the accounts it works on: first the accounts are
//! checked, then the operation's own step runs on them.

pub mod creator;
pub mod operations;
pub mod payment;
pub mod subscription;
