//! Request payloads the controller forwards to its two child services.

use vstd::prelude::*;
use crate::ownership::Action;

verus! {

/// Init payload of the profile registry.
pub struct ProfilesInstantiateMsg {}

/// Init payload of the message store: its pagination bounds.
pub struct MessagesInstantiateMsg {
    pub default_query_limit: u64,
    pub max_query_limit: u64,
}

/// Requests the profile registry accepts.
pub enum ProfilesExecuteMsg {
    CreateProfile { address: String, user_id: String, pubkey: String },
    ChangeUserId { address: String, user_id: String },
    ChangePubkey { address: String, pubkey: String },
    UpdateOwnership(Action),
}

/// Requests the message store accepts.
pub enum MessagesExecuteMsg {
    SendMessage { sender: String, receiver: String, message: Vec<u8> },
    ClaimMessageFunds { message_ids: Vec<u64> },
    DeleteMessages { message_ids: Vec<u64> },
    ChangeConfig { default_query_limit: u64, max_query_limit: u64 },
    UpdateOwnership(Action),
}

} // verus!
