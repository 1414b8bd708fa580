//! Owner/administrator capability with a two-step transfer handshake.
//!
//! Each service designates one administrator address. Transfer is two-phase:
//! the current owner nominates a successor, and nothing changes hands until
//! the nominee accepts. The owner may instead renounce, leaving the service
//! ownerless for good.

use vstd::prelude::*;

verus! {

/// Why an ownership operation was refused.
#[derive(Debug, PartialEq, Eq)]
pub enum OwnershipError {
    /// The service has no owner.
    NoOwner,
    /// The caller is not the current owner.
    NotOwner,
    /// The caller is not the pending nominee.
    NotPendingOwner,
    /// No transfer is pending.
    TransferNotFound,
}

/// An ownership action a caller may request.
pub enum Action {
    /// Nominate a new owner; takes effect only once the nominee accepts.
    TransferOwnership { new_owner: String },
    /// Accept a pending nomination; the caller becomes the owner.
    AcceptOwnership,
    /// Give ownership up, clearing any pending nomination as well.
    RenounceOwnership,
}

/// The owner slot of one service: the current owner, if any, and the
/// pending nominee during a transfer window.
pub struct Ownership {
    pub owner: Option<String>,
    pub pending_owner: Option<String>,
}

impl Ownership {
    /// A fresh slot owned by `owner`, with no transfer pending.
    pub fn new(owner: String) -> (r: Ownership)
        ensures
            r.owner == Some(owner),
            r.pending_owner is None,
    {
        Ownership { owner: Some(owner), pending_owner: None }
    }

    /// Whether `caller` is the current owner.
    pub open spec fn is_owner(&self, caller: Seq<char>) -> bool {
        match self.owner {
            Some(o) => o@ == caller,
            None => false,
        }
    }

    /// The error an owner-gated operation reports to a caller who is not
    /// the owner.
    pub open spec fn owner_error(&self) -> OwnershipError {
        if self.owner is None {
            OwnershipError::NoOwner
        } else {
            OwnershipError::NotOwner
        }
    }

    /// Succeeds exactly when `caller` is the current owner.
    pub fn assert_owner(&self, caller: &String) -> (r: Result<(), OwnershipError>)
        ensures
            r is Ok <==> self.is_owner(caller@),
            r is Err ==> r->Err_0 == self.owner_error(),
    {
        match &self.owner {
            None => Err(OwnershipError::NoOwner),
            Some(o) => {
                if *o == *caller {
                    Ok(())
                } else {
                    Err(OwnershipError::NotOwner)
                }
            },
        }
    }

    /// Apply one ownership action on behalf of `caller`.
    ///
    /// A transfer nominates without changing the owner; an accept promotes
    /// the nominee; a renounce clears both slots. A refused action leaves
    /// the slot untouched.
    pub fn update_ownership(&mut self, caller: &String, action: Action) -> (r: Result<
        (),
        OwnershipError,
    >)
        ensures
            update_ownership_post(*old(self), *final(self), caller@, action, r),
    {
        match action {
            Action::TransferOwnership { new_owner } => {
                if let Err(e) = self.assert_owner(caller) {
                    return Err(e);
                }
                self.pending_owner = Some(new_owner);
                Ok(())
            },
            Action::AcceptOwnership => {
                match &self.pending_owner {
                    None => Err(OwnershipError::TransferNotFound),
                    Some(nominee) => {
                        if *nominee == *caller {
                            self.owner = Some(nominee.clone());
                            self.pending_owner = None;
                            Ok(())
                        } else {
                            Err(OwnershipError::NotPendingOwner)
                        }
                    },
                }
            },
            Action::RenounceOwnership => {
                if let Err(e) = self.assert_owner(caller) {
                    return Err(e);
                }
                self.owner = None;
                self.pending_owner = None;
                Ok(())
            },
        }
    }
}

/// How one ownership action relates the slot before the call to the slot
/// after it, and which result it reports.
pub open spec fn update_ownership_post(
    pre: Ownership,
    post: Ownership,
    caller: Seq<char>,
    action: Action,
    r: Result<(), OwnershipError>,
) -> bool {
    match action {
        Action::TransferOwnership { new_owner } => {
            if pre.is_owner(caller) {
                &&& r is Ok
                &&& post.owner == pre.owner
                &&& post.pending_owner == Some(new_owner)
            } else {
                &&& r == Err::<(), OwnershipError>(pre.owner_error())
                &&& post == pre
            }
        },
        Action::AcceptOwnership => {
            match pre.pending_owner {
                None => {
                    &&& r == Err::<(), OwnershipError>(OwnershipError::TransferNotFound)
                    &&& post == pre
                },
                Some(nominee) => {
                    if nominee@ == caller {
                        &&& r is Ok
                        &&& post.owner == Some(nominee)
                        &&& post.pending_owner is None
                    } else {
                        &&& r == Err::<(), OwnershipError>(OwnershipError::NotPendingOwner)
                        &&& post == pre
                    }
                },
            }
        },
        Action::RenounceOwnership => {
            if pre.is_owner(caller) {
                &&& r is Ok
                &&& post.owner is None
                &&& post.pending_owner is None
            } else {
                &&& r == Err::<(), OwnershipError>(pre.owner_error())
                &&& post == pre
            }
        },
    }
}

} // verus!
