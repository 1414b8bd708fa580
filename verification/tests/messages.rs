use fedmsg::funds::Coin;
use fedmsg::host::MessageInfo;
use fedmsg::messages::{MessageStore, MessagesError, MessagesQueryAnswer};
use fedmsg::query::MessagesQueryMsg;
use fedmsg::msg::{MessagesExecuteMsg, MessagesInstantiateMsg};
use fedmsg::ownership::{Action, OwnershipError};

fn coin(denom: &str, amount: u128) -> Coin {
    Coin { denom: denom.to_string(), amount }
}

fn info(sender: &str, funds: Vec<Coin>) -> MessageInfo {
    MessageInfo { sender: sender.to_string(), funds }
}

fn fresh_store(default_limit: u64, max_limit: u64) -> MessageStore {
    MessageStore::instantiate(
        info("controller", vec![]),
        MessagesInstantiateMsg { default_query_limit: default_limit, max_query_limit: max_limit },
    )
}

fn send(store: &mut MessageStore, receiver: &str, content: &[u8], escrow: Vec<Coin>) {
    store
        .send_message(
            info("controller", escrow),
            "someone".to_string(),
            receiver.to_string(),
            content.to_vec(),
        )
        .unwrap();
}

#[test]
fn send_by_non_owner_is_refused() {
    let mut store = fresh_store(5, 5);
    let r = store.send_message(
        info("mallory", vec![]),
        "mallory".to_string(),
        "bob".to_string(),
        b"hi".to_vec(),
    );
    assert_eq!(r, Err(MessagesError::Ownership(OwnershipError::NotOwner)));
    assert_eq!(store.query_total_messages(&"bob".to_string()).total, 0);
}

#[test]
fn pagination_returns_the_reverse_window() {
    let mut store = fresh_store(5, 5);
    for i in 0..10u8 {
        send(&mut store, "bob", &[i], vec![]);
    }
    let resp = store.query_messages(&"bob".to_string(), 10, None).unwrap();
    let ids: Vec<u64> = resp.messages.iter().map(|m| m.id).collect();
    assert_eq!(ids, vec![9, 8, 7, 6, 5]);
    assert_eq!(resp.messages[0].message.content, vec![9u8]);
    assert_eq!(resp.messages[4].message.content, vec![5u8]);

    let resp = store.query_messages(&"bob".to_string(), 3, None).unwrap();
    let ids: Vec<u64> = resp.messages.iter().map(|m| m.id).collect();
    assert_eq!(ids, vec![2, 1, 0]);
}

#[test]
fn pagination_caps_the_limit_and_clamps_from() {
    let mut store = fresh_store(2, 3);
    for i in 0..10u8 {
        send(&mut store, "bob", &[i], vec![]);
    }
    // an oversized explicit limit is capped at the maximum
    let resp = store.query_messages(&"bob".to_string(), 10, Some(100)).unwrap();
    let ids: Vec<u64> = resp.messages.iter().map(|m| m.id).collect();
    assert_eq!(ids, vec![9, 8, 7]);
    // `from` past the end is clamped to the log's length
    let resp = store.query_messages(&"bob".to_string(), 50, Some(2)).unwrap();
    let ids: Vec<u64> = resp.messages.iter().map(|m| m.id).collect();
    assert_eq!(ids, vec![9, 8]);
}

#[test]
fn pagination_of_an_unknown_address_is_refused() {
    let store = fresh_store(5, 5);
    let r = store.query_messages(&"nobody".to_string(), 0, None);
    assert!(matches!(r, Err(MessagesError::NoLog)));
}

#[test]
fn claim_merges_escrows_and_empties_them() {
    let mut store = fresh_store(5, 5);
    send(&mut store, "alice", b"m0", vec![coin("uatom", 2)]);
    send(&mut store, "alice", b"m1", vec![coin("uatom", 3), coin("uxyz", 1)]);

    let t = store.claim_message_funds(info("alice", vec![]), vec![0, 1]).unwrap();
    assert_eq!(t.to_address, "alice".to_string());
    assert_eq!(t.amount, vec![coin("uatom", 5), coin("uxyz", 1)]);

    // both escrows are now empty, the messages themselves stay
    let resp = store.query_messages(&"alice".to_string(), 2, None).unwrap();
    assert_eq!(resp.messages.len(), 2);
    assert!(resp.messages.iter().all(|m| m.message.funds.is_empty()));

    // re-claiming the same indices transfers nothing and fails nothing
    let t = store.claim_message_funds(info("alice", vec![]), vec![0, 1]).unwrap();
    assert_eq!(t.amount, Vec::<Coin>::new());
}

#[test]
fn claim_pays_a_duplicated_index_once() {
    let mut store = fresh_store(5, 5);
    send(&mut store, "alice", b"m0", vec![coin("uatom", 2)]);
    let t = store.claim_message_funds(info("alice", vec![]), vec![0, 0, 0]).unwrap();
    assert_eq!(t.amount, vec![coin("uatom", 2)]);
}

#[test]
fn claim_with_an_out_of_range_index_changes_nothing() {
    let mut store = fresh_store(5, 5);
    send(&mut store, "alice", b"m0", vec![coin("uatom", 2)]);
    let r = store.claim_message_funds(info("alice", vec![]), vec![0, 5]);
    assert!(matches!(r, Err(MessagesError::NoMessage)));
    // the escrow of the in-range index was not touched
    let t = store.claim_message_funds(info("alice", vec![]), vec![0]).unwrap();
    assert_eq!(t.amount, vec![coin("uatom", 2)]);
}

#[test]
fn claim_without_a_log_is_refused() {
    let mut store = fresh_store(5, 5);
    let r = store.claim_message_funds(info("nobody", vec![]), vec![]);
    assert!(matches!(r, Err(MessagesError::NoLog)));
}

#[test]
fn delete_refunds_and_removes_by_original_position() {
    let mut store = fresh_store(5, 5);
    send(&mut store, "alice", b"m0", vec![coin("uatom", 2)]);
    send(&mut store, "alice", b"m1", vec![coin("uxyz", 7)]);
    send(&mut store, "alice", b"m2", vec![coin("uatom", 4)]);

    // positions supplied out of order: removal still goes by the original
    // positions, so the survivor is the middle message
    let t = store.delete_messages(info("alice", vec![]), vec![2, 0]).unwrap();
    assert_eq!(t.to_address, "alice".to_string());
    assert_eq!(t.amount, vec![coin("uatom", 6)]);

    assert_eq!(store.query_total_messages(&"alice".to_string()).total, 1);
    let resp = store.query_messages(&"alice".to_string(), 1, None).unwrap();
    assert_eq!(resp.messages[0].message.content, b"m1".to_vec());
    assert_eq!(resp.messages[0].message.funds, vec![coin("uxyz", 7)]);
}

#[test]
fn total_messages_counts_sends_minus_deletions() {
    let mut store = fresh_store(5, 5);
    assert_eq!(store.query_total_messages(&"bob".to_string()).total, 0);
    for i in 0..5u8 {
        send(&mut store, "bob", &[i], vec![coin("uatom", 1)]);
    }
    assert_eq!(store.query_total_messages(&"bob".to_string()).total, 5);

    // claiming changes no count
    store.claim_message_funds(info("bob", vec![]), vec![1, 2]).unwrap();
    assert_eq!(store.query_total_messages(&"bob".to_string()).total, 5);

    // deleting two distinct positions (one listed twice) removes two
    store.delete_messages(info("bob", vec![]), vec![0, 3, 0]).unwrap();
    assert_eq!(store.query_total_messages(&"bob".to_string()).total, 3);
}

#[test]
fn change_config_is_owner_gated() {
    let mut store = fresh_store(5, 5);
    let r = store.change_config(&info("mallory", vec![]), 1, 2);
    assert_eq!(r, Err(MessagesError::Ownership(OwnershipError::NotOwner)));

    store.change_config(&info("controller", vec![]), 1, 2).unwrap();
    assert_eq!(store.config.default_query_limit, 1);
    assert_eq!(store.config.max_query_limit, 2);
}

#[test]
fn store_execute_dispatches_a_claim() {
    let mut store = fresh_store(5, 5);
    send(&mut store, "alice", b"m0", vec![coin("uatom", 2)]);
    let r = store
        .execute(
            info("alice", vec![]),
            MessagesExecuteMsg::ClaimMessageFunds { message_ids: vec![0] },
        )
        .unwrap();
    let t = r.expect("a claim hands back a transfer");
    assert_eq!(t.amount, vec![coin("uatom", 2)]);

    let r = store
        .execute(
            info("controller", vec![coin("uatom", 9)]),
            MessagesExecuteMsg::SendMessage {
                sender: "someone".to_string(),
                receiver: "bob".to_string(),
                message: b"hello".to_vec(),
            },
        )
        .unwrap();
    assert!(r.is_none());
    assert_eq!(store.query_total_messages(&"bob".to_string()).total, 1);
}

#[test]
fn one_recipients_operations_leave_another_untouched() {
    let mut store = fresh_store(5, 5);
    send(&mut store, "alice", b"a0", vec![coin("uatom", 2)]);
    send(&mut store, "bob", b"b0", vec![coin("uatom", 7)]);
    send(&mut store, "alice", b"a1", vec![]);

    store.claim_message_funds(info("alice", vec![]), vec![0]).unwrap();
    store.delete_messages(info("alice", vec![]), vec![1]).unwrap();

    // bob's log is exactly as it was
    assert_eq!(store.query_total_messages(&"bob".to_string()).total, 1);
    let page = store.query_messages(&"bob".to_string(), 1, None).unwrap();
    assert_eq!(page.messages[0].message.content, b"b0".to_vec());
    assert_eq!(page.messages[0].message.funds, vec![coin("uatom", 7)]);
}

#[test]
fn store_ownership_changes_hands_through_execute() {
    let mut store = fresh_store(5, 5);
    store
        .execute(
            info("controller", vec![]),
            MessagesExecuteMsg::UpdateOwnership(Action::TransferOwnership {
                new_owner: "controller2".to_string(),
            }),
        )
        .unwrap();
    store
        .execute(
            info("controller2", vec![]),
            MessagesExecuteMsg::UpdateOwnership(Action::AcceptOwnership),
        )
        .unwrap();

    // the old owner may no longer append; the new one may
    let r = store.send_message(
        info("controller", vec![]),
        "x".to_string(),
        "bob".to_string(),
        b"hi".to_vec(),
    );
    assert_eq!(r, Err(MessagesError::Ownership(OwnershipError::NotOwner)));
    let r = store.send_message(
        info("controller2", vec![]),
        "x".to_string(),
        "bob".to_string(),
        b"hi".to_vec(),
    );
    assert_eq!(r, Ok(()));
}

#[test]
fn store_query_answers_both_reads() {
    let mut store = fresh_store(5, 5);
    send(&mut store, "bob", b"b0", vec![]);
    send(&mut store, "bob", b"b1", vec![]);

    let r = store
        .query(MessagesQueryMsg::Messages { address: "bob".to_string(), from: 2, limit: None })
        .unwrap();
    match r {
        MessagesQueryAnswer::Messages(resp) => {
            assert_eq!(resp.messages.len(), 2);
            assert_eq!(resp.messages[0].id, 1);
        }
        _ => panic!("a page read answers with a page"),
    }

    let r = store.query(MessagesQueryMsg::TotalMessages { address: "bob".to_string() }).unwrap();
    match r {
        MessagesQueryAnswer::Total(t) => assert_eq!(t.total, 2),
        _ => panic!("a count read answers with a count"),
    }
}
