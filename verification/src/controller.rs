//! The controller: the single front door of the platform. It provisions
//! the profile registry and the message store as child services through
//! the environment's spawn/completion protocol, owns the fee policy,
//! validates and fee-adjusts requests before forwarding them, and sweeps
//! the fees it accumulates to its administrator.
//!
//! Provisioning is two-phase. `instantiate` persists the fee policy and
//! hands the environment two spawn requests, each tagged with its own
//! correlation id, then returns without blocking. The two completion
//! notices arrive later as separate `reply` calls, in unspecified relative
//! order; each binds only the slot its correlation id names, so either
//! arrival order ends in the same provisioned state.

use vstd::prelude::*;
use crate::funds::{
    Coin,
    PaymentError,
    coin_eq,
    coin_matches,
    deduct_fee,
    deduct_fee_spec,
    one_coin,
    one_coin_spec,
};
use crate::host::{BankTransfer, Env, MessageInfo};
use crate::msg::{
    MessagesExecuteMsg,
    MessagesInstantiateMsg,
    ProfilesExecuteMsg,
    ProfilesInstantiateMsg,
};
use crate::ownership::{Action, Ownership, OwnershipError, update_ownership_post};

verus! {

/// Correlation id of the profile registry's spawn completion.
pub const INSTANTIATE_PROFILES_REPLY_ID: u64 = 1;

/// Correlation id of the message store's spawn completion.
pub const INSTANTIATE_MESSAGES_REPLY_ID: u64 = 2;

/// Why a controller operation was refused.
#[derive(Debug, PartialEq, Eq)]
pub enum ContractError {
    /// An owner-gated operation was called by someone other than the owner.
    Ownership(OwnershipError),
    /// The attached payment was malformed.
    Payment(PaymentError),
    /// A completion notice carried an unknown correlation id.
    InvalidReplyID,
    /// A completion notice reported that the child's own instantiation
    /// failed.
    InstantiateError,
    /// The attached funds are not exactly the configured profile fee.
    InvalidFunds { funds_required: Coin },
    /// Exactly one of a destination address and a destination user id must
    /// be given.
    NoDestination,
    /// The content exceeds the configured maximum length.
    MessageTooLong,
    /// The attached funds hold too little of the fee's denomination.
    NotEnoughFundsForMessage,
    /// A child-service address is needed before both children are bound.
    NotProvisioned,
}

/// The controller's fee policy and message length bound.
pub struct Config {
    pub message_max_len: u64,
    pub message_cost: Option<Coin>,
    pub profile_cost: Option<Coin>,
}

impl Clone for Config {
    fn clone(&self) -> (res: Self)
        ensures
            res == *self,
    {
        Config {
            message_max_len: self.message_max_len,
            message_cost: match &self.message_cost {
                Some(c) => Some(c.clone()),
                None => None,
            },
            profile_cost: match &self.profile_cost {
                Some(c) => Some(c.clone()),
                None => None,
            },
        }
    }
}

/// What the initialize request carries: the code identifiers of the two
/// children, the message length bound, the store's pagination bounds, and
/// the optional fees.
pub struct InstantiateMsg {
    pub code_id_profiles: u64,
    pub code_id_messages: u64,
    pub message_max_len: u64,
    pub message_query_default_limit: u64,
    pub message_query_max_limit: u64,
    pub create_profile_cost: Option<Coin>,
    pub send_message_cost: Option<Coin>,
}

/// Requests the controller accepts.
pub enum ExecuteMsg {
    CreateProfile { user_id: String, pubkey: String },
    ChangeUserId { user_id: String },
    ChangePubkey { pubkey: String },
    SendMessage { content: Vec<u8>, dest_address: Option<String>, dest_id: Option<String> },
    ChangeMessagesConfig { message_query_default_limit: u64, message_query_max_limit: u64 },
    RetrieveFees { receiver: Option<String> },
    UpdateOwnership(Action),
}

/// Reads the controller answers.
pub enum QueryMsg {
    Config {},
}

/// The init payload a spawned child receives.
pub enum ChildInit {
    Profiles(ProfilesInstantiateMsg),
    Messages(MessagesInstantiateMsg),
}

/// One spawn-child request for the environment to carry out, tagged with
/// the correlation id its completion notice will bear.
pub struct SpawnRequest {
    pub code_id: u64,
    pub reply_id: u64,
    pub init: ChildInit,
}

/// A call for the environment to deliver to the profile registry.
pub struct ProfilesCommand {
    pub contract_addr: String,
    pub msg: ProfilesExecuteMsg,
    pub funds: Vec<Coin>,
}

/// A call for the environment to deliver to the message store.
pub struct MessagesCommand {
    pub contract_addr: String,
    pub msg: MessagesExecuteMsg,
    pub funds: Vec<Coin>,
}

/// A send waiting for its destination: everything but the receiver.
pub struct PendingSend {
    pub contract_addr: String,
    pub sender: String,
    pub content: Vec<u8>,
    pub funds: Vec<Coin>,
}

/// What a validated, fee-adjusted send needs next: either the forward
/// itself, or first a synchronous user-id lookup at the profile registry,
/// whose answer becomes the receiver.
pub enum SendAction {
    Forward(MessagesCommand),
    Resolve { user_id: String, pending: PendingSend },
}

impl PendingSend {
    /// Finish a send once the registry's answer names the receiver.
    pub fn into_forward(self, receiver: String) -> (cmd: MessagesCommand)
        ensures
            cmd == (MessagesCommand {
                contract_addr: self.contract_addr,
                msg: MessagesExecuteMsg::SendMessage {
                    sender: self.sender,
                    receiver,
                    message: self.content,
                },
                funds: self.funds,
            }),
    {
        MessagesCommand {
            contract_addr: self.contract_addr,
            msg: MessagesExecuteMsg::SendMessage {
                sender: self.sender,
                receiver,
                message: self.content,
            },
            funds: self.funds,
        }
    }
}

/// The controller service: its fee policy, its owner slot, and the two
/// child-address slots the reply protocol fills.
pub struct Controller {
    pub config: Config,
    pub ownership: Ownership,
    pub profiles_address: Option<String>,
    pub messages_address: Option<String>,
}

/// The state a successful completion notice leaves behind: the correlation
/// id names the one slot it binds, and nothing else moves.
pub open spec fn bind_child(pre: Controller, reply_id: u64, child_address: String) -> Controller {
    if reply_id == INSTANTIATE_PROFILES_REPLY_ID {
        Controller { profiles_address: Some(child_address), ..pre }
    } else if reply_id == INSTANTIATE_MESSAGES_REPLY_ID {
        Controller { messages_address: Some(child_address), ..pre }
    } else {
        pre
    }
}

/// The two completion notices write disjoint slots, so both arrival orders
/// end in the same fully provisioned state, with the same two bound
/// addresses and the policy untouched.
pub proof fn lemma_provisioning_order_independent(
    s: Controller,
    profiles_addr: String,
    messages_addr: String,
)
    ensures
        bind_child(
            bind_child(s, INSTANTIATE_PROFILES_REPLY_ID, profiles_addr),
            INSTANTIATE_MESSAGES_REPLY_ID,
            messages_addr,
        ) == bind_child(
            bind_child(s, INSTANTIATE_MESSAGES_REPLY_ID, messages_addr),
            INSTANTIATE_PROFILES_REPLY_ID,
            profiles_addr,
        ),
        ({
            let done = bind_child(
                bind_child(s, INSTANTIATE_PROFILES_REPLY_ID, profiles_addr),
                INSTANTIATE_MESSAGES_REPLY_ID,
                messages_addr,
            );
            &&& done.provisioned()
            &&& done.profiles_address == Some(profiles_addr)
            &&& done.messages_address == Some(messages_addr)
            &&& done.config == s.config
            &&& done.ownership == s.ownership
        }),
{
}

impl Controller {
    /// Both child services are bound.
    pub open spec fn provisioned(&self) -> bool {
        self.profiles_address is Some && self.messages_address is Some
    }

    /// Persist the fee policy, take ownership for the caller, and hand the
    /// environment the two spawn requests. Both child-address slots start
    /// empty; the completion notices fill them later, in either order.
    pub fn instantiate(info: MessageInfo, msg: InstantiateMsg) -> (r: (
        Controller,
        SpawnRequest,
        SpawnRequest,
    ))
        ensures
            r.0.config == (Config {
                message_max_len: msg.message_max_len,
                message_cost: msg.send_message_cost,
                profile_cost: msg.create_profile_cost,
            }),
            r.0.ownership.owner == Some(info.sender),
            r.0.ownership.pending_owner is None,
            r.0.profiles_address is None,
            r.0.messages_address is None,
            r.1 == (SpawnRequest {
                code_id: msg.code_id_profiles,
                reply_id: INSTANTIATE_PROFILES_REPLY_ID,
                init: ChildInit::Profiles(ProfilesInstantiateMsg {  }),
            }),
            r.2 == (SpawnRequest {
                code_id: msg.code_id_messages,
                reply_id: INSTANTIATE_MESSAGES_REPLY_ID,
                init: ChildInit::Messages(MessagesInstantiateMsg {
                    default_query_limit: msg.message_query_default_limit,
                    max_query_limit: msg.message_query_max_limit,
                }),
            }),
    {
        let controller = Controller {
            config: Config {
                message_max_len: msg.message_max_len,
                message_cost: msg.send_message_cost,
                profile_cost: msg.create_profile_cost,
            },
            ownership: Ownership::new(info.sender),
            profiles_address: None,
            messages_address: None,
        };
        let spawn_profiles = SpawnRequest {
            code_id: msg.code_id_profiles,
            reply_id: INSTANTIATE_PROFILES_REPLY_ID,
            init: ChildInit::Profiles(ProfilesInstantiateMsg {  }),
        };
        let spawn_messages = SpawnRequest {
            code_id: msg.code_id_messages,
            reply_id: INSTANTIATE_MESSAGES_REPLY_ID,
            init: ChildInit::Messages(MessagesInstantiateMsg {
                default_query_limit: msg.message_query_default_limit,
                max_query_limit: msg.message_query_max_limit,
            }),
        };
        (controller, spawn_profiles, spawn_messages)
    }

    /// Handle one spawn completion notice. `outcome` carries the child's
    /// address, or nothing when the child's own instantiation failed. A
    /// recognized id binds its own slot exactly once -- the environment
    /// delivers one notice per id, so the slot is still empty.
    pub fn reply(&mut self, reply_id: u64, outcome: Option<String>) -> (r: Result<
        (),
        ContractError,
    >)
        requires
            reply_id == INSTANTIATE_PROFILES_REPLY_ID ==> old(self).profiles_address is None,
            reply_id == INSTANTIATE_MESSAGES_REPLY_ID ==> old(self).messages_address is None,
        ensures
            match outcome {
                None => r == Err::<(), ContractError>(ContractError::InstantiateError)
                    && *final(self) == *old(self),
                Some(child_address) => {
                    if reply_id == INSTANTIATE_PROFILES_REPLY_ID || reply_id
                        == INSTANTIATE_MESSAGES_REPLY_ID {
                        &&& r is Ok
                        &&& *final(self) == bind_child(*old(self), reply_id, child_address)
                    } else {
                        &&& r == Err::<(), ContractError>(ContractError::InvalidReplyID)
                        &&& *final(self) == *old(self)
                    }
                },
            },
    {
        match outcome {
            None => Err(ContractError::InstantiateError),
            Some(child_address) => {
                if reply_id == INSTANTIATE_MESSAGES_REPLY_ID {
                    self.messages_address = Some(child_address);
                    Ok(())
                } else if reply_id == INSTANTIATE_PROFILES_REPLY_ID {
                    self.profiles_address = Some(child_address);
                    Ok(())
                } else {
                    Err(ContractError::InvalidReplyID)
                }
            },
        }
    }

    /// The current fee policy.
    pub fn query_config(&self) -> (r: Config)
        ensures
            r == self.config,
    {
        self.config.clone()
    }

    /// Answer one read.
    pub fn query(&self, msg: QueryMsg) -> (r: Config)
        ensures
            match msg {
                QueryMsg::Config {  } => r == self.config,
            },
    {
        match msg {
            QueryMsg::Config {  } => self.query_config(),
        }
    }
}

/// How a forwarded profile creation relates to the controller's state and
/// the caller's payment: with a configured creation fee the caller must
/// attach exactly that one coin -- the fee stays with the controller, and
/// the forwarded call carries no funds.
pub open spec fn create_profile_post(
    s: Controller,
    info: MessageInfo,
    pubkey: String,
    user_id: String,
    r: Result<ProfilesCommand, ContractError>,
) -> bool {
    match r {
        Ok(cmd) => {
            &&& match s.config.profile_cost {
                Some(fee) => one_coin_spec(info.funds@) matches Ok(c) && coin_matches(c, fee),
                None => true,
            }
            &&& s.profiles_address == Some(cmd.contract_addr)
            &&& cmd.msg == (ProfilesExecuteMsg::CreateProfile {
                address: info.sender,
                user_id,
                pubkey,
            })
            &&& cmd.funds@ == Seq::<Coin>::empty()
        },
        Err(ContractError::Payment(e)) => {
            &&& s.config.profile_cost is Some
            &&& one_coin_spec(info.funds@) == Err::<Coin, PaymentError>(e)
        },
        Err(ContractError::InvalidFunds { funds_required }) => {
            &&& s.config.profile_cost matches Some(fee) && funds_required == fee && (one_coin_spec(
                info.funds@,
            ) matches Ok(c) && !coin_matches(c, fee))
        },
        Err(ContractError::NotProvisioned) => {
            &&& match s.config.profile_cost {
                Some(fee) => one_coin_spec(info.funds@) matches Ok(c) && coin_matches(c, fee),
                None => true,
            }
            &&& s.profiles_address is None
        },
        Err(_) => false,
    }
}

/// How a forwarded rename relates to the controller's state.
pub open spec fn change_user_id_post(
    s: Controller,
    info: MessageInfo,
    user_id: String,
    r: Result<ProfilesCommand, ContractError>,
) -> bool {
    match r {
        Ok(cmd) => {
            &&& s.profiles_address == Some(cmd.contract_addr)
            &&& cmd.msg == (ProfilesExecuteMsg::ChangeUserId { address: info.sender, user_id })
            &&& cmd.funds@ == Seq::<Coin>::empty()
        },
        Err(ContractError::NotProvisioned) => s.profiles_address is None,
        Err(_) => false,
    }
}

/// How a forwarded rekey relates to the controller's state.
pub open spec fn change_pubkey_post(
    s: Controller,
    info: MessageInfo,
    pubkey: String,
    r: Result<ProfilesCommand, ContractError>,
) -> bool {
    match r {
        Ok(cmd) => {
            &&& s.profiles_address == Some(cmd.contract_addr)
            &&& cmd.msg == (ProfilesExecuteMsg::ChangePubkey { address: info.sender, pubkey })
            &&& cmd.funds@ == Seq::<Coin>::empty()
        },
        Err(ContractError::NotProvisioned) => s.profiles_address is None,
        Err(_) => false,
    }
}

/// How a send relates to the controller's state, the caller's funds and
/// the two destination fields: the content must fit the length bound,
/// exactly one destination must be given, the configured send fee is
/// deducted from the attached funds, and what remains is forwarded as the
/// message's escrow -- directly when the destination is an address, after
/// a registry lookup when it is a user id.
pub open spec fn send_message_post(
    s: Controller,
    info: MessageInfo,
    content: Vec<u8>,
    dest_address: Option<String>,
    dest_id: Option<String>,
    r: Result<SendAction, ContractError>,
) -> bool {
    match r {
        Ok(action) => {
            &&& s.provisioned()
            &&& content@.len() <= s.config.message_max_len
            &&& ({
                let rest = match s.config.message_cost {
                    Some(fee) => deduct_fee_spec(info.funds@, fee),
                    None => Some(info.funds@),
                };
                rest matches Some(remaining) && match action {
                    SendAction::Forward(cmd) => {
                        &&& dest_address matches Some(receiver) && dest_id is None && cmd.msg == (
                        MessagesExecuteMsg::SendMessage {
                            sender: info.sender,
                            receiver,
                            message: content,
                        })
                        &&& s.messages_address == Some(cmd.contract_addr)
                        &&& cmd.funds@ == remaining
                    },
                    SendAction::Resolve { user_id, pending } => {
                        &&& dest_id == Some(user_id)
                        &&& dest_address is None
                        &&& s.messages_address == Some(pending.contract_addr)
                        &&& pending.sender == info.sender
                        &&& pending.content == content
                        &&& pending.funds@ == remaining
                    },
                }
            })
        },
        Err(ContractError::NotProvisioned) => !s.provisioned(),
        Err(ContractError::MessageTooLong) => {
            &&& s.provisioned()
            &&& content@.len() > s.config.message_max_len
        },
        Err(ContractError::NoDestination) => {
            &&& s.provisioned()
            &&& content@.len() <= s.config.message_max_len
            &&& (dest_address is Some <==> dest_id is Some)
        },
        Err(ContractError::NotEnoughFundsForMessage) => {
            &&& s.provisioned()
            &&& content@.len() <= s.config.message_max_len
            &&& !(dest_address is Some <==> dest_id is Some)
            &&& s.config.message_cost matches Some(fee) && deduct_fee_spec(info.funds@, fee)
                is None
        },
        Err(_) => false,
    }
}

/// How a forwarded pagination-bound change relates to the controller's
/// state; administrator only.
pub open spec fn change_messages_config_post(
    s: Controller,
    info: MessageInfo,
    message_query_default_limit: u64,
    message_query_max_limit: u64,
    r: Result<MessagesCommand, ContractError>,
) -> bool {
    match r {
        Ok(cmd) => {
            &&& s.ownership.is_owner(info.sender@)
            &&& s.messages_address == Some(cmd.contract_addr)
            &&& cmd.msg == (MessagesExecuteMsg::ChangeConfig {
                default_query_limit: message_query_default_limit,
                max_query_limit: message_query_max_limit,
            })
            &&& cmd.funds@ == Seq::<Coin>::empty()
        },
        Err(ContractError::Ownership(e)) => {
            &&& !s.ownership.is_owner(info.sender@)
            &&& e == s.ownership.owner_error()
        },
        Err(ContractError::NotProvisioned) => {
            &&& s.ownership.is_owner(info.sender@)
            &&& s.messages_address is None
        },
        Err(_) => false,
    }
}

/// How a fee sweep relates to the controller's state and the balance the
/// environment reports: the whole balance goes to the named receiver, or
/// to the caller when none is named; administrator only.
pub open spec fn retrieve_fees_post(
    s: Controller,
    info: MessageInfo,
    env: Env,
    receiver: Option<String>,
    r: Result<BankTransfer, ContractError>,
) -> bool {
    match r {
        Ok(t) => {
            &&& s.ownership.is_owner(info.sender@)
            &&& t.amount@ == env.contract_balance@
            &&& t.to_address == (match receiver {
                Some(a) => a,
                None => info.sender,
            })
        },
        Err(ContractError::Ownership(e)) => {
            &&& !s.ownership.is_owner(info.sender@)
            &&& e == s.ownership.owner_error()
        },
        Err(_) => false,
    }
}

impl Controller {
    /// Forward a profile creation to the registry. With a configured
    /// creation fee the caller must attach exactly that one coin; the fee
    /// stays with the controller -- `retrieve_fees` sweeps it later -- so
    /// the forwarded call carries no funds.
    pub fn create_profile(&self, info: MessageInfo, pubkey: String, user_id: String) -> (r: Result<
        ProfilesCommand,
        ContractError,
    >)
        ensures
            create_profile_post(*self, info, pubkey, user_id, r),
    {
        if let Some(fee) = &self.config.profile_cost {
            let paid = match one_coin(&info.funds) {
                Ok(c) => c,
                Err(e) => {
                    return Err(ContractError::Payment(e));
                },
            };
            if !coin_eq(&paid, fee) {
                return Err(ContractError::InvalidFunds { funds_required: fee.clone() });
            }
        }
        let profiles_address = match &self.profiles_address {
            Some(a) => a.clone(),
            None => {
                return Err(ContractError::NotProvisioned);
            },
        };
        Ok(ProfilesCommand {
            contract_addr: profiles_address,
            msg: ProfilesExecuteMsg::CreateProfile { address: info.sender, user_id, pubkey },
            funds: Vec::new(),
        })
    }

    /// Forward a rename to the registry.
    pub fn change_user_id(&self, info: MessageInfo, user_id: String) -> (r: Result<
        ProfilesCommand,
        ContractError,
    >)
        ensures
            change_user_id_post(*self, info, user_id, r),
    {
        let profiles_address = match &self.profiles_address {
            Some(a) => a.clone(),
            None => {
                return Err(ContractError::NotProvisioned);
            },
        };
        Ok(ProfilesCommand {
            contract_addr: profiles_address,
            msg: ProfilesExecuteMsg::ChangeUserId { address: info.sender, user_id },
            funds: Vec::new(),
        })
    }

    /// Forward a rekey to the registry.
    pub fn change_pubkey(&self, info: MessageInfo, pubkey: String) -> (r: Result<
        ProfilesCommand,
        ContractError,
    >)
        ensures
            change_pubkey_post(*self, info, pubkey, r),
    {
        let profiles_address = match &self.profiles_address {
            Some(a) => a.clone(),
            None => {
                return Err(ContractError::NotProvisioned);
            },
        };
        Ok(ProfilesCommand {
            contract_addr: profiles_address,
            msg: ProfilesExecuteMsg::ChangePubkey { address: info.sender, pubkey },
            funds: Vec::new(),
        })
    }

    /// Validate and fee-adjust a send. The remaining funds -- after the
    /// configured send fee is deducted -- are forwarded as the message's
    /// escrow. A destination given by user id needs a registry lookup
    /// first: the returned action carries everything else, and
    /// `PendingSend::into_forward` finishes it with the lookup's answer.
    pub fn send_message(
        &self,
        info: MessageInfo,
        content: Vec<u8>,
        dest_address: Option<String>,
        dest_id: Option<String>,
    ) -> (r: Result<SendAction, ContractError>)
        ensures
            send_message_post(*self, info, content, dest_address, dest_id, r),
    {
        let messages_address = match (&self.profiles_address, &self.messages_address) {
            (Some(_), Some(a)) => a.clone(),
            _ => {
                return Err(ContractError::NotProvisioned);
            },
        };
        if (content.len() as u64) > self.config.message_max_len {
            return Err(ContractError::MessageTooLong);
        }
        let destination = match (dest_address, dest_id) {
            (Some(receiver), None) => Ok(receiver),
            (None, Some(user_id)) => Err(user_id),
            _ => {
                return Err(ContractError::NoDestination);
            },
        };
        let mut funds_to_send = info.funds;
        if let Some(fee) = &self.config.message_cost {
            if !deduct_fee(&mut funds_to_send, fee) {
                return Err(ContractError::NotEnoughFundsForMessage);
            }
        }
        match destination {
            Ok(receiver) => Ok(
                SendAction::Forward(
                    MessagesCommand {
                        contract_addr: messages_address,
                        msg: MessagesExecuteMsg::SendMessage {
                            sender: info.sender,
                            receiver,
                            message: content,
                        },
                        funds: funds_to_send,
                    },
                ),
            ),
            Err(user_id) => Ok(
                SendAction::Resolve {
                    user_id,
                    pending: PendingSend {
                        contract_addr: messages_address,
                        sender: info.sender,
                        content,
                        funds: funds_to_send,
                    },
                },
            ),
        }
    }

    /// Forward new pagination bounds to the message store; administrator
    /// only.
    pub fn change_messages_config(
        &self,
        info: &MessageInfo,
        message_query_default_limit: u64,
        message_query_max_limit: u64,
    ) -> (r: Result<MessagesCommand, ContractError>)
        ensures
            change_messages_config_post(
                *self,
                *info,
                message_query_default_limit,
                message_query_max_limit,
                r,
            ),
    {
        if let Err(e) = self.ownership.assert_owner(&info.sender) {
            return Err(ContractError::Ownership(e));
        }
        let messages_address = match &self.messages_address {
            Some(a) => a.clone(),
            None => {
                return Err(ContractError::NotProvisioned);
            },
        };
        Ok(MessagesCommand {
            contract_addr: messages_address,
            msg: MessagesExecuteMsg::ChangeConfig {
                default_query_limit: message_query_default_limit,
                max_query_limit: message_query_max_limit,
            },
            funds: Vec::new(),
        })
    }

    /// Sweep the controller's whole held balance -- the accumulated fees,
    /// as the environment reports them -- to the named receiver, or to the
    /// caller when none is named; administrator only.
    pub fn retrieve_fees(&self, info: MessageInfo, env: Env, receiver: Option<String>) -> (r:
        Result<BankTransfer, ContractError>)
        ensures
            retrieve_fees_post(*self, info, env, receiver, r),
    {
        if let Err(e) = self.ownership.assert_owner(&info.sender) {
            return Err(ContractError::Ownership(e));
        }
        let to_address = match receiver {
            Some(a) => a,
            None => info.sender,
        };
        Ok(BankTransfer { to_address, amount: env.contract_balance })
    }

    /// Hand an ownership action to the controller's owner slot.
    pub fn update_ownership(&mut self, info: &MessageInfo, action: Action) -> (r: Result<
        (),
        ContractError,
    >)
        ensures
            final(self).config == old(self).config,
            final(self).profiles_address == old(self).profiles_address,
            final(self).messages_address == old(self).messages_address,
            match r {
                Ok(()) => update_ownership_post(
                    old(self).ownership,
                    final(self).ownership,
                    info.sender@,
                    action,
                    Ok(()),
                ),
                Err(ContractError::Ownership(e)) => update_ownership_post(
                    old(self).ownership,
                    final(self).ownership,
                    info.sender@,
                    action,
                    Err(e),
                ),
                Err(_) => false,
            },
    {
        match self.ownership.update_ownership(&info.sender, action) {
            Ok(()) => Ok(()),
            Err(e) => Err(ContractError::Ownership(e)),
        }
    }
}

/// What one controller request hands the environment to carry out.
pub enum ControllerAction {
    /// A call to forward to the profile registry.
    Profiles(ProfilesCommand),
    /// A send: forward it, or resolve its user id first.
    Send(SendAction),
    /// A call to forward to the message store.
    Messages(MessagesCommand),
    /// A value transfer.
    Transfer(BankTransfer),
    /// Nothing outbound: the request only changed the controller's state.
    Done,
}

impl Controller {
    /// One decoded request dispatched to the controller. `env` carries the
    /// balance snapshot a fee sweep needs.
    pub fn execute(&mut self, env: Env, info: MessageInfo, msg: ExecuteMsg) -> (r: Result<
        ControllerAction,
        ContractError,
    >)
        ensures
            match msg {
                ExecuteMsg::CreateProfile { user_id, pubkey } => *final(self) == *old(self)
                    && match r {
                    Ok(ControllerAction::Profiles(cmd)) => create_profile_post(
                        *old(self),
                        info,
                        pubkey,
                        user_id,
                        Ok(cmd),
                    ),
                    Ok(_) => false,
                    Err(e) => create_profile_post(*old(self), info, pubkey, user_id, Err(e)),
                },
                ExecuteMsg::ChangeUserId { user_id } => *final(self) == *old(self) && match r {
                    Ok(ControllerAction::Profiles(cmd)) => change_user_id_post(
                        *old(self),
                        info,
                        user_id,
                        Ok(cmd),
                    ),
                    Ok(_) => false,
                    Err(e) => change_user_id_post(*old(self), info, user_id, Err(e)),
                },
                ExecuteMsg::ChangePubkey { pubkey } => *final(self) == *old(self) && match r {
                    Ok(ControllerAction::Profiles(cmd)) => change_pubkey_post(
                        *old(self),
                        info,
                        pubkey,
                        Ok(cmd),
                    ),
                    Ok(_) => false,
                    Err(e) => change_pubkey_post(*old(self), info, pubkey, Err(e)),
                },
                ExecuteMsg::SendMessage { content, dest_address, dest_id } => *final(self) == *old(
                    self,
                ) && match r {
                    Ok(ControllerAction::Send(action)) => send_message_post(
                        *old(self),
                        info,
                        content,
                        dest_address,
                        dest_id,
                        Ok(action),
                    ),
                    Ok(_) => false,
                    Err(e) => send_message_post(
                        *old(self),
                        info,
                        content,
                        dest_address,
                        dest_id,
                        Err(e),
                    ),
                },
                ExecuteMsg::ChangeMessagesConfig {
                    message_query_default_limit,
                    message_query_max_limit,
                } => *final(self) == *old(self) && match r {
                    Ok(ControllerAction::Messages(cmd)) => change_messages_config_post(
                        *old(self),
                        info,
                        message_query_default_limit,
                        message_query_max_limit,
                        Ok(cmd),
                    ),
                    Ok(_) => false,
                    Err(e) => change_messages_config_post(
                        *old(self),
                        info,
                        message_query_default_limit,
                        message_query_max_limit,
                        Err(e),
                    ),
                },
                ExecuteMsg::RetrieveFees { receiver } => *final(self) == *old(self) && match r {
                    Ok(ControllerAction::Transfer(t)) => retrieve_fees_post(
                        *old(self),
                        info,
                        env,
                        receiver,
                        Ok(t),
                    ),
                    Ok(_) => false,
                    Err(e) => retrieve_fees_post(*old(self), info, env, receiver, Err(e)),
                },
                ExecuteMsg::UpdateOwnership(action) => {
                    &&& final(self).config == old(self).config
                    &&& final(self).profiles_address == old(self).profiles_address
                    &&& final(self).messages_address == old(self).messages_address
                    &&& match r {
                        Ok(ControllerAction::Done) => update_ownership_post(
                            old(self).ownership,
                            final(self).ownership,
                            info.sender@,
                            action,
                            Ok(()),
                        ),
                        Ok(_) => false,
                        Err(ContractError::Ownership(e)) => update_ownership_post(
                            old(self).ownership,
                            final(self).ownership,
                            info.sender@,
                            action,
                            Err(e),
                        ),
                        Err(_) => false,
                    }
                },
            },
    {
        match msg {
            ExecuteMsg::CreateProfile { user_id, pubkey } => {
                match self.create_profile(info, pubkey, user_id) {
                    Ok(cmd) => Ok(ControllerAction::Profiles(cmd)),
                    Err(e) => Err(e),
                }
            },
            ExecuteMsg::ChangeUserId { user_id } => {
                match self.change_user_id(info, user_id) {
                    Ok(cmd) => Ok(ControllerAction::Profiles(cmd)),
                    Err(e) => Err(e),
                }
            },
            ExecuteMsg::ChangePubkey { pubkey } => {
                match self.change_pubkey(info, pubkey) {
                    Ok(cmd) => Ok(ControllerAction::Profiles(cmd)),
                    Err(e) => Err(e),
                }
            },
            ExecuteMsg::SendMessage { content, dest_address, dest_id } => {
                match self.send_message(info, content, dest_address, dest_id) {
                    Ok(action) => Ok(ControllerAction::Send(action)),
                    Err(e) => Err(e),
                }
            },
            ExecuteMsg::ChangeMessagesConfig {
                message_query_default_limit,
                message_query_max_limit,
            } => {
                match self.change_messages_config(
                    &info,
                    message_query_default_limit,
                    message_query_max_limit,
                ) {
                    Ok(cmd) => Ok(ControllerAction::Messages(cmd)),
                    Err(e) => Err(e),
                }
            },
            ExecuteMsg::RetrieveFees { receiver } => {
                match self.retrieve_fees(info, env, receiver) {
                    Ok(t) => Ok(ControllerAction::Transfer(t)),
                    Err(e) => Err(e),
                }
            },
            ExecuteMsg::UpdateOwnership(action) => {
                match self.update_ownership(&info, action) {
                    Ok(()) => Ok(ControllerAction::Done),
                    Err(e) => Err(e),
                }
            },
        }
    }
}

} // verus!
