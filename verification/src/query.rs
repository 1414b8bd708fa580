//! Read-only queries the services answer, and their response shapes.

use vstd::prelude::*;
use crate::elements::Message;

verus! {

/// Lookups the profile registry answers.
pub enum ProfilesQueryMsg {
    UserInfo { user_id: String },
    AddressInfo { address: String },
}

/// A profile together with its address, as lookups report it.
pub struct ProfileInfo {
    pub address: String,
    pub user_id: String,
    pub pubkey: String,
}

/// Reads the message store answers.
pub enum MessagesQueryMsg {
    Messages { address: String, from: u64, limit: Option<u64> },
    TotalMessages { address: String },
}

/// A page of messages, most recent first.
pub struct MessagesResponse {
    pub messages: Vec<MessageResponse>,
}

/// One returned message, tagged with its position in the recipient's log so
/// a claim or delete can target it precisely.
pub struct MessageResponse {
    pub id: u64,
    pub message: Message,
}

/// How many messages a recipient's log currently holds.
pub struct TotalMessagesResponse {
    pub total: u64,
}

} // verus!
