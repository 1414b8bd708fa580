use fedmsg::ownership::{Action, Ownership, OwnershipError};

#[test]
fn transfer_then_accept_hands_ownership_over() {
    let mut own = Ownership::new("alice".to_string());
    assert_eq!(own.owner, Some("alice".to_string()));
    assert_eq!(own.pending_owner, None);

    let r = own.update_ownership(
        &"alice".to_string(),
        Action::TransferOwnership { new_owner: "bob".to_string() },
    );
    assert_eq!(r, Ok(()));
    assert_eq!(own.owner, Some("alice".to_string()));
    assert_eq!(own.pending_owner, Some("bob".to_string()));

    let r = own.update_ownership(&"bob".to_string(), Action::AcceptOwnership);
    assert_eq!(r, Ok(()));
    assert_eq!(own.owner, Some("bob".to_string()));
    assert_eq!(own.pending_owner, None);
}

#[test]
fn transfer_by_non_owner_is_refused() {
    let mut own = Ownership::new("alice".to_string());
    let r = own.update_ownership(
        &"mallory".to_string(),
        Action::TransferOwnership { new_owner: "mallory".to_string() },
    );
    assert_eq!(r, Err(OwnershipError::NotOwner));
    assert_eq!(own.owner, Some("alice".to_string()));
    assert_eq!(own.pending_owner, None);
}

#[test]
fn accept_by_the_wrong_address_is_refused() {
    let mut own = Ownership::new("alice".to_string());
    own.update_ownership(
        &"alice".to_string(),
        Action::TransferOwnership { new_owner: "bob".to_string() },
    )
    .unwrap();
    let r = own.update_ownership(&"mallory".to_string(), Action::AcceptOwnership);
    assert_eq!(r, Err(OwnershipError::NotPendingOwner));
    assert_eq!(own.owner, Some("alice".to_string()));
    assert_eq!(own.pending_owner, Some("bob".to_string()));
}

#[test]
fn accept_without_a_pending_transfer_is_refused() {
    let mut own = Ownership::new("alice".to_string());
    let r = own.update_ownership(&"bob".to_string(), Action::AcceptOwnership);
    assert_eq!(r, Err(OwnershipError::TransferNotFound));
}

#[test]
fn renounce_clears_owner_and_nominee() {
    let mut own = Ownership::new("alice".to_string());
    own.update_ownership(
        &"alice".to_string(),
        Action::TransferOwnership { new_owner: "bob".to_string() },
    )
    .unwrap();
    let r = own.update_ownership(&"alice".to_string(), Action::RenounceOwnership);
    assert_eq!(r, Ok(()));
    assert_eq!(own.owner, None);
    assert_eq!(own.pending_owner, None);

    let r = own.update_ownership(
        &"alice".to_string(),
        Action::TransferOwnership { new_owner: "bob".to_string() },
    );
    assert_eq!(r, Err(OwnershipError::NoOwner));
}

#[test]
fn assert_owner_distinguishes_no_owner_from_wrong_owner() {
    let own = Ownership::new("alice".to_string());
    assert_eq!(own.assert_owner(&"alice".to_string()), Ok(()));
    assert_eq!(own.assert_owner(&"bob".to_string()), Err(OwnershipError::NotOwner));

    let mut own = Ownership::new("alice".to_string());
    own.update_ownership(&"alice".to_string(), Action::RenounceOwnership).unwrap();
    assert_eq!(own.assert_owner(&"alice".to_string()), Err(OwnershipError::NoOwner));
}
