//! What a subscriber owes the creator for an operation.

use vstd::prelude::*;
use crate::identity::Identity;

verus! {

/// A transfer that the host has to make for the operation to count: `amount`
/// from `from` to `to`. If the transfer fails, the operation did not happen
/// and the records stay as they were before it.
#[derive(Clone, Copy, Debug, PartialEq, Eq)]
pub struct Payment {
    pub from: Identity,
    pub to: Identity,
    pub amount: u64,
}

} // verus!
