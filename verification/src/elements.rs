//! The two domain records shared across the services.

use vstd::prelude::*;
use crate::funds::Coin;
use crate::funds::clone_coins;

verus! {

/// A stored profile: the human-readable user id and the public key bound to
/// one address.
pub struct Profile {
    pub user_id: String,
    pub pubkey: String,
}

impl Clone for Profile {
    fn clone(&self) -> (res: Self)
        ensures
            res == *self,
    {
        Profile { user_id: self.user_id.clone(), pubkey: self.pubkey.clone() }
    }
}

/// One stored message: its sender and content, immutable for the message's
/// lifetime, and the value still escrowed with it.
pub struct Message {
    pub sender: String,
    pub content: Vec<u8>,
    pub funds: Vec<Coin>,
}

/// Mathematical image of a `Message`.
#[verifier::ext_equal]
pub struct MessageView {
    pub sender: Seq<char>,
    pub content: Seq<u8>,
    pub funds: Seq<Coin>,
}

impl View for Message {
    type V = MessageView;

    open spec fn view(&self) -> MessageView {
        MessageView { sender: self.sender@, content: self.content@, funds: self.funds@ }
    }
}

impl DeepView for Message {
    type V = MessageView;

    open spec fn deep_view(&self) -> MessageView {
        self.view()
    }
}

impl Clone for Message {
    fn clone(&self) -> (res: Self)
        ensures
            res@ == self@,
    {
        let content = self.content.clone();
        proof {
            assert(content@ =~= self.content@);
        }
        Message { sender: self.sender.clone(), content, funds: clone_coins(&self.funds) }
    }
}

} // verus!
