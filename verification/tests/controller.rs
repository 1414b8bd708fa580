use fedmsg::controller::{
    ContractError, Controller, ControllerAction, ExecuteMsg, InstantiateMsg,
    INSTANTIATE_MESSAGES_REPLY_ID, INSTANTIATE_PROFILES_REPLY_ID, QueryMsg, SendAction,
};
use fedmsg::funds::{Coin, PaymentError};
use fedmsg::host::{Env, MessageInfo};
use fedmsg::msg::{MessagesExecuteMsg, ProfilesExecuteMsg};
use fedmsg::ownership::{Action, OwnershipError};

fn coin(denom: &str, amount: u128) -> Coin {
    Coin { denom: denom.to_string(), amount }
}

fn info(sender: &str, funds: Vec<Coin>) -> MessageInfo {
    MessageInfo { sender: sender.to_string(), funds }
}

fn init_msg(profile_cost: Option<Coin>, message_cost: Option<Coin>) -> InstantiateMsg {
    InstantiateMsg {
        code_id_profiles: 11,
        code_id_messages: 22,
        message_max_len: 100,
        message_query_default_limit: 5,
        message_query_max_limit: 5,
        create_profile_cost: profile_cost,
        send_message_cost: message_cost,
    }
}

fn provisioned(profile_cost: Option<Coin>, message_cost: Option<Coin>) -> Controller {
    let (mut ctrl, _, _) = Controller::instantiate(
        info("deployer", vec![]),
        init_msg(profile_cost, message_cost),
    );
    ctrl.reply(INSTANTIATE_PROFILES_REPLY_ID, Some("profiles_addr".to_string())).unwrap();
    ctrl.reply(INSTANTIATE_MESSAGES_REPLY_ID, Some("messages_addr".to_string())).unwrap();
    ctrl
}

#[test]
fn provisioning_ends_the_same_in_either_arrival_order() {
    let (fresh, spawn_profiles, spawn_messages) =
        Controller::instantiate(info("deployer", vec![]), init_msg(None, None));
    assert_eq!(spawn_profiles.code_id, 11);
    assert_eq!(spawn_profiles.reply_id, INSTANTIATE_PROFILES_REPLY_ID);
    assert_eq!(spawn_messages.code_id, 22);
    assert_eq!(spawn_messages.reply_id, INSTANTIATE_MESSAGES_REPLY_ID);
    assert_eq!(fresh.profiles_address, None);
    assert_eq!(fresh.messages_address, None);

    let mut first = provisioned(None, None);
    assert_eq!(first.profiles_address, Some("profiles_addr".to_string()));
    assert_eq!(first.messages_address, Some("messages_addr".to_string()));

    let (mut second, _, _) =
        Controller::instantiate(info("deployer", vec![]), init_msg(None, None));
    second.reply(INSTANTIATE_MESSAGES_REPLY_ID, Some("messages_addr".to_string())).unwrap();
    second.reply(INSTANTIATE_PROFILES_REPLY_ID, Some("profiles_addr".to_string())).unwrap();

    assert_eq!(first.profiles_address, second.profiles_address);
    assert_eq!(first.messages_address, second.messages_address);
    assert_eq!(first.ownership.owner, second.ownership.owner);

    // each completion wrote only its own slot along the way
    first.reply(77, Some("stray".to_string())).unwrap_err();
}

#[test]
fn reply_refuses_unknown_ids_and_failed_children() {
    let (mut ctrl, _, _) =
        Controller::instantiate(info("deployer", vec![]), init_msg(None, None));
    let r = ctrl.reply(77, Some("addr".to_string()));
    assert!(matches!(r, Err(ContractError::InvalidReplyID)));
    let r = ctrl.reply(INSTANTIATE_PROFILES_REPLY_ID, None);
    assert!(matches!(r, Err(ContractError::InstantiateError)));
    assert_eq!(ctrl.profiles_address, None);
    assert_eq!(ctrl.messages_address, None);
}

#[test]
fn create_profile_demands_the_exact_fee() {
    let fee = coin("uatom", 5);
    let ctrl = provisioned(Some(fee), None);

    // exactly the configured coin: forwarded, fee kept by the controller
    let cmd = ctrl
        .create_profile(info("alice", vec![coin("uatom", 5)]), "key".to_string(), "alice_id".to_string())
        .unwrap();
    assert_eq!(cmd.contract_addr, "profiles_addr".to_string());
    assert_eq!(cmd.funds, Vec::<Coin>::new());
    match cmd.msg {
        ProfilesExecuteMsg::CreateProfile { address, user_id, pubkey } => {
            assert_eq!(address, "alice".to_string());
            assert_eq!(user_id, "alice_id".to_string());
            assert_eq!(pubkey, "key".to_string());
        }
        _ => panic!("the forwarded call must be a profile creation"),
    }

    // wrong denomination
    let r = ctrl.create_profile(info("alice", vec![coin("uxyz", 5)]), "key".to_string(), "a".to_string());
    assert!(matches!(r, Err(ContractError::InvalidFunds { funds_required }) if funds_required == coin("uatom", 5)));
    // wrong amount
    let r = ctrl.create_profile(info("alice", vec![coin("uatom", 6)]), "key".to_string(), "a".to_string());
    assert!(matches!(r, Err(ContractError::InvalidFunds { .. })));
    // zero coins attached
    let r = ctrl.create_profile(info("alice", vec![]), "key".to_string(), "a".to_string());
    assert!(matches!(r, Err(ContractError::Payment(PaymentError::NoFunds))));
    // a single zero coin
    let r = ctrl.create_profile(info("alice", vec![coin("uatom", 0)]), "key".to_string(), "a".to_string());
    assert!(matches!(r, Err(ContractError::Payment(PaymentError::NoFunds))));
    // multiple coins
    let r = ctrl.create_profile(
        info("alice", vec![coin("uatom", 5), coin("uxyz", 1)]),
        "key".to_string(),
        "a".to_string(),
    );
    assert!(matches!(r, Err(ContractError::Payment(PaymentError::MultipleDenoms))));
}

#[test]
fn create_profile_without_a_fee_needs_no_funds() {
    let ctrl = provisioned(None, None);
    let cmd = ctrl
        .create_profile(info("alice", vec![]), "key".to_string(), "alice_id".to_string())
        .unwrap();
    assert_eq!(cmd.contract_addr, "profiles_addr".to_string());
}

#[test]
fn create_profile_before_provisioning_is_refused() {
    let (ctrl, _, _) = Controller::instantiate(info("deployer", vec![]), init_msg(None, None));
    let r = ctrl.create_profile(info("alice", vec![]), "key".to_string(), "a".to_string());
    assert!(matches!(r, Err(ContractError::NotProvisioned)));
}

#[test]
fn send_message_deducts_the_fee_from_the_escrow() {
    let ctrl = provisioned(None, Some(coin("uatom", 5)));

    // more than the fee: the difference is forwarded
    let action = ctrl
        .send_message(
            info("alice", vec![coin("uatom", 10), coin("uxyz", 3)]),
            b"hi".to_vec(),
            Some("bob_addr".to_string()),
            None,
        )
        .unwrap();
    match action {
        SendAction::Forward(cmd) => {
            assert_eq!(cmd.contract_addr, "messages_addr".to_string());
            assert_eq!(cmd.funds, vec![coin("uatom", 5), coin("uxyz", 3)]);
            match cmd.msg {
                MessagesExecuteMsg::SendMessage { sender, receiver, message } => {
                    assert_eq!(sender, "alice".to_string());
                    assert_eq!(receiver, "bob_addr".to_string());
                    assert_eq!(message, b"hi".to_vec());
                }
                _ => panic!("the forwarded call must be a send"),
            }
        }
        _ => panic!("a destination address needs no lookup"),
    }

    // exactly the fee: nothing is forwarded as escrow
    let action = ctrl
        .send_message(
            info("alice", vec![coin("uatom", 5)]),
            b"hi".to_vec(),
            Some("bob_addr".to_string()),
            None,
        )
        .unwrap();
    match action {
        SendAction::Forward(cmd) => assert_eq!(cmd.funds, Vec::<Coin>::new()),
        _ => panic!("a destination address needs no lookup"),
    }

    // too little of the fee's denomination
    let r = ctrl.send_message(
        info("alice", vec![coin("uatom", 3)]),
        b"hi".to_vec(),
        Some("bob_addr".to_string()),
        None,
    );
    assert!(matches!(r, Err(ContractError::NotEnoughFundsForMessage)));

    // none of the fee's denomination
    let r = ctrl.send_message(
        info("alice", vec![coin("uxyz", 9)]),
        b"hi".to_vec(),
        Some("bob_addr".to_string()),
        None,
    );
    assert!(matches!(r, Err(ContractError::NotEnoughFundsForMessage)));
}

#[test]
fn send_message_needs_exactly_one_destination() {
    let ctrl = provisioned(None, None);
    let r = ctrl.send_message(info("alice", vec![]), b"hi".to_vec(), None, None);
    assert!(matches!(r, Err(ContractError::NoDestination)));
    let r = ctrl.send_message(
        info("alice", vec![]),
        b"hi".to_vec(),
        Some("bob_addr".to_string()),
        Some("bob_id".to_string()),
    );
    assert!(matches!(r, Err(ContractError::NoDestination)));
}

#[test]
fn send_message_bounds_the_content_length() {
    let ctrl = provisioned(None, None);
    let r = ctrl.send_message(
        info("alice", vec![]),
        vec![0u8; 101],
        Some("bob_addr".to_string()),
        None,
    );
    assert!(matches!(r, Err(ContractError::MessageTooLong)));
    let r = ctrl.send_message(
        info("alice", vec![]),
        vec![0u8; 100],
        Some("bob_addr".to_string()),
        None,
    );
    assert!(r.is_ok());
}

#[test]
fn send_message_by_user_id_resolves_then_forwards() {
    let ctrl = provisioned(None, Some(coin("uatom", 5)));
    let action = ctrl
        .send_message(
            info("alice", vec![coin("uatom", 7)]),
            b"hi".to_vec(),
            None,
            Some("bob_id".to_string()),
        )
        .unwrap();
    match action {
        SendAction::Resolve { user_id, pending } => {
            assert_eq!(user_id, "bob_id".to_string());
            // the registry's answer names the receiver
            let cmd = pending.into_forward("bob_addr".to_string());
            assert_eq!(cmd.contract_addr, "messages_addr".to_string());
            assert_eq!(cmd.funds, vec![coin("uatom", 2)]);
            match cmd.msg {
                MessagesExecuteMsg::SendMessage { sender, receiver, message } => {
                    assert_eq!(sender, "alice".to_string());
                    assert_eq!(receiver, "bob_addr".to_string());
                    assert_eq!(message, b"hi".to_vec());
                }
                _ => panic!("the forwarded call must be a send"),
            }
        }
        _ => panic!("a user id destination needs a lookup"),
    }
}

#[test]
fn change_messages_config_is_owner_gated() {
    let ctrl = provisioned(None, None);
    let r = ctrl.change_messages_config(&info("mallory", vec![]), 1, 2);
    assert!(matches!(r, Err(ContractError::Ownership(OwnershipError::NotOwner))));
    let cmd = ctrl.change_messages_config(&info("deployer", vec![]), 1, 2).unwrap();
    assert_eq!(cmd.contract_addr, "messages_addr".to_string());
    match cmd.msg {
        MessagesExecuteMsg::ChangeConfig { default_query_limit, max_query_limit } => {
            assert_eq!(default_query_limit, 1);
            assert_eq!(max_query_limit, 2);
        }
        _ => panic!("the forwarded call must be a config change"),
    }
}

#[test]
fn retrieve_fees_sweeps_the_whole_balance() {
    let ctrl = provisioned(None, None);
    let env = Env { contract_balance: vec![coin("uatom", 40), coin("uxyz", 2)] };
    let t = ctrl.retrieve_fees(info("deployer", vec![]), env, None).unwrap();
    assert_eq!(t.to_address, "deployer".to_string());
    assert_eq!(t.amount, vec![coin("uatom", 40), coin("uxyz", 2)]);

    let env = Env { contract_balance: vec![coin("uatom", 40)] };
    let t = ctrl
        .retrieve_fees(info("deployer", vec![]), env, Some("treasury".to_string()))
        .unwrap();
    assert_eq!(t.to_address, "treasury".to_string());

    let env = Env { contract_balance: vec![coin("uatom", 40)] };
    let r = ctrl.retrieve_fees(info("mallory", vec![]), env, None);
    assert!(matches!(r, Err(ContractError::Ownership(OwnershipError::NotOwner))));
}

#[test]
fn query_reports_the_fee_policy() {
    let ctrl = provisioned(Some(coin("uatom", 5)), Some(coin("uatom", 3)));
    let cfg = ctrl.query(QueryMsg::Config {});
    assert_eq!(cfg.message_max_len, 100);
    assert_eq!(cfg.profile_cost, Some(coin("uatom", 5)));
    assert_eq!(cfg.message_cost, Some(coin("uatom", 3)));
}

#[test]
fn controller_execute_dispatches() {
    let mut ctrl = provisioned(None, None);
    let env = Env { contract_balance: vec![coin("uatom", 8)] };
    let r = ctrl
        .execute(
            env,
            info("deployer", vec![]),
            ExecuteMsg::RetrieveFees { receiver: None },
        )
        .unwrap();
    match r {
        ControllerAction::Transfer(t) => assert_eq!(t.amount, vec![coin("uatom", 8)]),
        _ => panic!("a fee sweep hands back a transfer"),
    }

    let env = Env { contract_balance: vec![] };
    let r = ctrl
        .execute(
            env,
            info("alice", vec![]),
            ExecuteMsg::CreateProfile { user_id: "alice_id".to_string(), pubkey: "key".to_string() },
        )
        .unwrap();
    match r {
        ControllerAction::Profiles(cmd) => {
            assert_eq!(cmd.contract_addr, "profiles_addr".to_string())
        }
        _ => panic!("a profile creation is forwarded to the registry"),
    }
}

#[test]
fn controller_ownership_changes_hands_through_execute() {
    let mut ctrl = provisioned(None, None);
    let env = Env { contract_balance: vec![] };
    let r = ctrl
        .execute(
            env,
            info("deployer", vec![]),
            ExecuteMsg::UpdateOwnership(Action::TransferOwnership {
                new_owner: "successor".to_string(),
            }),
        )
        .unwrap();
    assert!(matches!(r, ControllerAction::Done));
    let env = Env { contract_balance: vec![] };
    ctrl.execute(
        env,
        info("successor", vec![]),
        ExecuteMsg::UpdateOwnership(Action::AcceptOwnership),
    )
    .unwrap();

    let env = Env { contract_balance: vec![] };
    let r = ctrl.execute(env, info("deployer", vec![]), ExecuteMsg::RetrieveFees { receiver: None });
    assert!(matches!(r, Err(ContractError::Ownership(OwnershipError::NotOwner))));
    let env = Env { contract_balance: vec![] };
    let r = ctrl.execute(env, info("successor", vec![]), ExecuteMsg::RetrieveFees { receiver: None });
    assert!(r.is_ok());
}
