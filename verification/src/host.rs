//! Plain images of what the host environment hands a service with each
//! request, and of the outbound actions a service hands back for the
//! environment to carry out after the request commits.

use vstd::prelude::*;
use crate::funds::Coin;

verus! {

/// Who called, and the funds attached to the call.
pub struct MessageInfo {
    pub sender: String,
    pub funds: Vec<Coin>,
}

/// The slice of the environment a request may read: the service's own bank
/// balance.
pub struct Env {
    pub contract_balance: Vec<Coin>,
}

/// A value transfer for the environment to carry out.
pub struct BankTransfer {
    pub to_address: String,
    pub amount: Vec<Coin>,
}

} // verus!
