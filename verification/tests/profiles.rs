use fedmsg::host::MessageInfo;
use fedmsg::msg::{ProfilesExecuteMsg, ProfilesInstantiateMsg};
use fedmsg::ownership::OwnershipError;
use fedmsg::profiles::{ProfileRegistry, ProfilesError};
use fedmsg::query::ProfilesQueryMsg;

fn info(sender: &str) -> MessageInfo {
    MessageInfo { sender: sender.to_string(), funds: vec![] }
}

fn fresh_registry() -> ProfileRegistry {
    ProfileRegistry::instantiate(info("controller"), ProfilesInstantiateMsg {})
}

#[test]
fn a_user_id_binds_to_at_most_one_address() {
    let mut reg = fresh_registry();
    let r = reg.create_profile(
        &info("controller"),
        "addr1".to_string(),
        "bob".to_string(),
        "key1".to_string(),
    );
    assert_eq!(r, Ok(()));

    // same user id from a different address
    let r = reg.create_profile(
        &info("controller"),
        "addr2".to_string(),
        "bob".to_string(),
        "key2".to_string(),
    );
    assert_eq!(r, Err(ProfilesError::UserIdAlreadyExists));

    // same address with a different user id
    let r = reg.create_profile(
        &info("controller"),
        "addr1".to_string(),
        "carol".to_string(),
        "key3".to_string(),
    );
    assert_eq!(r, Err(ProfilesError::AddressHasProfile));
}

#[test]
fn creation_is_owner_gated() {
    let mut reg = fresh_registry();
    let r = reg.create_profile(
        &info("mallory"),
        "addr1".to_string(),
        "bob".to_string(),
        "key1".to_string(),
    );
    assert_eq!(r, Err(ProfilesError::Ownership(OwnershipError::NotOwner)));
}

#[test]
fn lookups_resolve_both_directions() {
    let mut reg = fresh_registry();
    reg.create_profile(&info("controller"), "addr1".to_string(), "bob".to_string(), "key1".to_string())
        .unwrap();

    let p = reg.query_user_info(&"bob".to_string()).unwrap();
    assert_eq!(p.address, "addr1".to_string());
    assert_eq!(p.user_id, "bob".to_string());
    assert_eq!(p.pubkey, "key1".to_string());

    let p = reg.query_address_info(&"addr1".to_string()).unwrap();
    assert_eq!(p.address, "addr1".to_string());
    assert_eq!(p.user_id, "bob".to_string());
    assert_eq!(p.pubkey, "key1".to_string());

    let r = reg.query_user_info(&"nobody".to_string());
    assert!(matches!(r, Err(ProfilesError::ProfileNotFound)));
    let r = reg.query_address_info(&"addr9".to_string());
    assert!(matches!(r, Err(ProfilesError::ProfileNotFound)));
}

#[test]
fn rename_rechecks_uniqueness_against_other_users() {
    let mut reg = fresh_registry();
    reg.create_profile(&info("controller"), "addr1".to_string(), "bob".to_string(), "key1".to_string())
        .unwrap();
    reg.create_profile(&info("controller"), "addr2".to_string(), "carol".to_string(), "key2".to_string())
        .unwrap();

    // taking another user's id is refused
    let r = reg.change_user_id(&info("controller"), "addr1".to_string(), "carol".to_string());
    assert_eq!(r, Err(ProfilesError::UserIdAlreadyExists));

    // renaming to one's own current id is allowed
    let r = reg.change_user_id(&info("controller"), "addr1".to_string(), "bob".to_string());
    assert_eq!(r, Ok(()));

    // a real rename frees the old id and binds the new one
    let r = reg.change_user_id(&info("controller"), "addr1".to_string(), "bobby".to_string());
    assert_eq!(r, Ok(()));
    assert!(matches!(reg.query_user_info(&"bob".to_string()), Err(ProfilesError::ProfileNotFound)));
    let p = reg.query_user_info(&"bobby".to_string()).unwrap();
    assert_eq!(p.address, "addr1".to_string());
    assert_eq!(p.pubkey, "key1".to_string());

    // the freed id can be bound again
    let r = reg.create_profile(
        &info("controller"),
        "addr3".to_string(),
        "bob".to_string(),
        "key3".to_string(),
    );
    assert_eq!(r, Ok(()));
}

#[test]
fn rename_of_an_unknown_address_is_refused() {
    let mut reg = fresh_registry();
    let r = reg.change_user_id(&info("controller"), "addr9".to_string(), "bob".to_string());
    assert_eq!(r, Err(ProfilesError::ProfileNotFound));
}

#[test]
fn rekey_replaces_only_the_public_key() {
    let mut reg = fresh_registry();
    reg.create_profile(&info("controller"), "addr1".to_string(), "bob".to_string(), "key1".to_string())
        .unwrap();
    let r = reg.change_pubkey(&info("controller"), "addr1".to_string(), "key9".to_string());
    assert_eq!(r, Ok(()));
    let p = reg.query_address_info(&"addr1".to_string()).unwrap();
    assert_eq!(p.user_id, "bob".to_string());
    assert_eq!(p.pubkey, "key9".to_string());

    let r = reg.change_pubkey(&info("controller"), "addr9".to_string(), "key9".to_string());
    assert_eq!(r, Err(ProfilesError::ProfileNotFound));
}

#[test]
fn registry_execute_dispatches() {
    let mut reg = fresh_registry();
    let r = reg.execute(
        info("controller"),
        ProfilesExecuteMsg::CreateProfile {
            address: "addr1".to_string(),
            user_id: "bob".to_string(),
            pubkey: "key1".to_string(),
        },
    );
    assert_eq!(r, Ok(()));
    let r = reg.execute(
        info("controller"),
        ProfilesExecuteMsg::ChangePubkey { address: "addr1".to_string(), pubkey: "key2".to_string() },
    );
    assert_eq!(r, Ok(()));
    let p = reg.query_address_info(&"addr1".to_string()).unwrap();
    assert_eq!(p.pubkey, "key2".to_string());
}

#[test]
fn registry_query_answers_both_lookups() {
    let mut reg = fresh_registry();
    reg.create_profile(&info("controller"), "addr1".to_string(), "bob".to_string(), "key1".to_string())
        .unwrap();
    let p = reg.query(ProfilesQueryMsg::UserInfo { user_id: "bob".to_string() }).unwrap();
    assert_eq!(p.address, "addr1".to_string());
    let p = reg.query(ProfilesQueryMsg::AddressInfo { address: "addr1".to_string() }).unwrap();
    assert_eq!(p.user_id, "bob".to_string());
}
