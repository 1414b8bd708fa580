//! The profile registry: keyed bookkeeping of user id, address and public
//! key. The two logical indexes -- user id to address and address to
//! profile -- stay consistent because each bound address and its profile
//! live in one entry, and the registry keeps both keys unique.

use vstd::prelude::*;
use crate::elements::Profile;
use crate::host::MessageInfo;
use crate::msg::{ProfilesExecuteMsg, ProfilesInstantiateMsg};
use crate::ownership::{Action, Ownership, OwnershipError, update_ownership_post};
use crate::query::{ProfileInfo, ProfilesQueryMsg};

verus! {

/// Why a profile registry operation was refused.
#[derive(Debug, PartialEq, Eq)]
pub enum ProfilesError {
    /// An owner-gated operation was called by someone other than the owner.
    Ownership(OwnershipError),
    /// The requested user id is already bound to an address.
    UserIdAlreadyExists,
    /// The address already has a profile.
    AddressHasProfile,
    /// The user id or address looked up is bound to no profile.
    ProfileNotFound,
}

/// One registry entry: an address and the profile bound to it.
pub struct ProfileEntry {
    pub address: String,
    pub profile: Profile,
}

/// The profile registry service: its owner slot and every bound profile.
pub struct ProfileRegistry {
    pub ownership: Ownership,
    pub entries: Vec<ProfileEntry>,
}

impl ProfileRegistry {
    /// A user id resolves to at most one address and an address to at most
    /// one profile: no two entries share an address or a user id.
    pub open spec fn wf(&self) -> bool {
        forall|i: int, j: int|
            0 <= i < j < self.entries@.len() ==> self.entries@[i].address@
                != self.entries@[j].address@ && self.entries@[i].profile.user_id@
                != self.entries@[j].profile.user_id@
    }

    /// Whether `addr` has a profile.
    pub open spec fn has_address(&self, addr: Seq<char>) -> bool {
        exists|i: int| 0 <= i < self.entries@.len() && self.entries@[i].address@ == addr
    }

    /// Whether `id` is bound to an address.
    pub open spec fn has_user_id(&self, id: Seq<char>) -> bool {
        exists|i: int| 0 <= i < self.entries@.len() && self.entries@[i].profile.user_id@ == id
    }

    /// The slot holding the entry of `addr`.
    pub open spec fn addr_index(&self, addr: Seq<char>) -> int {
        choose|i: int| 0 <= i < self.entries@.len() && self.entries@[i].address@ == addr
    }

    /// The slot holding the entry whose user id is `id`.
    pub open spec fn id_index(&self, id: Seq<char>) -> int {
        choose|i: int| 0 <= i < self.entries@.len() && self.entries@[i].profile.user_id@ == id
    }

    /// The profile bound to `addr`.
    pub open spec fn profile_of(&self, addr: Seq<char>) -> Profile {
        self.entries@[self.addr_index(addr)].profile
    }

    /// The address `id` is bound to.
    pub open spec fn address_of(&self, id: Seq<char>) -> String {
        self.entries@[self.id_index(id)].address
    }

    /// In a well-formed registry both keys of slot `i` are unique, so the
    /// slot is the one each accessor reads.
    pub proof fn lemma_entry_at(&self, i: int)
        requires
            self.wf(),
            0 <= i < self.entries@.len(),
        ensures
            self.has_address(self.entries@[i].address@),
            self.addr_index(self.entries@[i].address@) == i,
            self.profile_of(self.entries@[i].address@) == self.entries@[i].profile,
            self.has_user_id(self.entries@[i].profile.user_id@),
            self.id_index(self.entries@[i].profile.user_id@) == i,
            self.address_of(self.entries@[i].profile.user_id@) == self.entries@[i].address,
    {
        assert(self.has_address(self.entries@[i].address@));
        let k = self.addr_index(self.entries@[i].address@);
        assert(0 <= k < self.entries@.len() && self.entries@[k].address@
            == self.entries@[i].address@);
        if k < i {
            assert(self.entries@[k].address@ != self.entries@[i].address@);
        } else if i < k {
            assert(self.entries@[i].address@ != self.entries@[k].address@);
        }
        assert(self.has_user_id(self.entries@[i].profile.user_id@));
        let m = self.id_index(self.entries@[i].profile.user_id@);
        assert(0 <= m < self.entries@.len() && self.entries@[m].profile.user_id@
            == self.entries@[i].profile.user_id@);
        if m < i {
            assert(self.entries@[m].profile.user_id@ != self.entries@[i].profile.user_id@);
        } else if i < m {
            assert(self.entries@[i].profile.user_id@ != self.entries@[m].profile.user_id@);
        }
    }

    /// The slot holding the entry of `address`, when there is one.
    fn find_by_address(&self, address: &String) -> (r: Option<usize>)
        requires
            self.wf(),
        ensures
            match r {
                Some(i) => {
                    &&& i < self.entries@.len()
                    &&& self.entries@[i as int].address@ == address@
                    &&& self.has_address(address@)
                    &&& self.addr_index(address@) == i
                },
                None => !self.has_address(address@),
            },
    {
        let n = self.entries.len();
        let mut i: usize = 0;
        while i < n
            invariant
                i <= n,
                n == self.entries@.len(),
                self.wf(),
                forall|k: int| 0 <= k < i ==> self.entries@[k].address@ != address@,
            decreases n - i,
        {
            if self.entries[i].address == *address {
                proof {
                    self.lemma_entry_at(i as int);
                }
                return Some(i);
            }
            i = i + 1;
        }
        None
    }

    /// The slot holding the entry whose user id is `user_id`, when there
    /// is one.
    fn find_by_user_id(&self, user_id: &String) -> (r: Option<usize>)
        requires
            self.wf(),
        ensures
            match r {
                Some(i) => {
                    &&& i < self.entries@.len()
                    &&& self.entries@[i as int].profile.user_id@ == user_id@
                    &&& self.has_user_id(user_id@)
                    &&& self.id_index(user_id@) == i
                },
                None => !self.has_user_id(user_id@),
            },
    {
        let n = self.entries.len();
        let mut i: usize = 0;
        while i < n
            invariant
                i <= n,
                n == self.entries@.len(),
                self.wf(),
                forall|k: int| 0 <= k < i ==> self.entries@[k].profile.user_id@ != user_id@,
            decreases n - i,
        {
            if self.entries[i].profile.user_id == *user_id {
                proof {
                    self.lemma_entry_at(i as int);
                }
                return Some(i);
            }
            i = i + 1;
        }
        None
    }

    /// A fresh registry owned by the caller that provisioned it, holding
    /// no profiles. The init payload carries nothing.
    pub fn instantiate(info: MessageInfo, _msg: ProfilesInstantiateMsg) -> (r: ProfileRegistry)
        ensures
            r.wf(),
            r.ownership.owner == Some(info.sender),
            r.ownership.pending_owner is None,
            r.entries@.len() == 0,
            forall|a: Seq<char>| !r.has_address(a),
            forall|id: Seq<char>| !r.has_user_id(id),
    {
        ProfileRegistry { ownership: Ownership::new(info.sender), entries: Vec::new() }
    }
}

/// Frame fact: appending an entry with a fresh address and a fresh user id
/// leaves every other binding unchanged.
pub proof fn lemma_profile_appended(pre: ProfileRegistry, post: ProfileRegistry)
    requires
        pre.wf(),
        post.entries@.len() == pre.entries@.len() + 1,
        forall|k: int| 0 <= k < pre.entries@.len() ==> post.entries@[k] == pre.entries@[k],
        !pre.has_address(post.entries@[pre.entries@.len() as int].address@),
        !pre.has_user_id(post.entries@[pre.entries@.len() as int].profile.user_id@),
    ensures
        post.wf(),
        post.has_address(post.entries@[pre.entries@.len() as int].address@),
        post.has_user_id(post.entries@[pre.entries@.len() as int].profile.user_id@),
        post.profile_of(post.entries@[pre.entries@.len() as int].address@) == post.entries@[pre.entries@.len() as int].profile,
        post.address_of(post.entries@[pre.entries@.len() as int].profile.user_id@) == post.entries@[pre.entries@.len() as int].address,
        forall|a: Seq<char>|
            a != post.entries@[pre.entries@.len() as int].address@ ==> post.has_address(a)
                == pre.has_address(a) && (pre.has_address(a) ==> post.profile_of(a)
                == pre.profile_of(a)),
        forall|id: Seq<char>|
            id != post.entries@[pre.entries@.len() as int].profile.user_id@ ==> post.has_user_id(
                id,
            ) == pre.has_user_id(id) && (pre.has_user_id(id) ==> post.address_of(id)
                == pre.address_of(id)),
{
    let n = pre.entries@.len() as int;
    let fresh = post.entries@[n];
    assert(post.wf()) by {
        assert forall|i: int, j: int|
            0 <= i < j < post.entries@.len() implies post.entries@[i].address@
            != post.entries@[j].address@ && post.entries@[i].profile.user_id@
            != post.entries@[j].profile.user_id@ by {
            if j < n {
            } else {
                assert(post.entries@[i] == pre.entries@[i]);
                assert(pre.entries@[i].address@ != fresh.address@);
                assert(pre.entries@[i].profile.user_id@ != fresh.profile.user_id@);
            }
        }
    }
    post.lemma_entry_at(n);
    assert forall|a: Seq<char>| a != fresh.address@ implies post.has_address(a) == pre.has_address(
        a,
    ) && (pre.has_address(a) ==> post.profile_of(a) == pre.profile_of(a)) by {
        if pre.has_address(a) {
            let k = pre.addr_index(a);
            assert(0 <= k < pre.entries@.len() && pre.entries@[k].address@ == a);
            pre.lemma_entry_at(k);
            post.lemma_entry_at(k);
        } else if post.has_address(a) {
            let k = post.addr_index(a);
            assert(0 <= k < post.entries@.len() && post.entries@[k].address@ == a);
            assert(k != n);
            assert(pre.entries@[k].address@ == a);
        }
    }
    assert forall|id: Seq<char>| id != fresh.profile.user_id@ implies post.has_user_id(id)
        == pre.has_user_id(id) && (pre.has_user_id(id) ==> post.address_of(id) == pre.address_of(
        id,
    )) by {
        if pre.has_user_id(id) {
            let k = pre.id_index(id);
            assert(0 <= k < pre.entries@.len() && pre.entries@[k].profile.user_id@ == id);
            pre.lemma_entry_at(k);
            post.lemma_entry_at(k);
        } else if post.has_user_id(id) {
            let k = post.id_index(id);
            assert(0 <= k < post.entries@.len() && post.entries@[k].profile.user_id@ == id);
            assert(k != n);
            assert(pre.entries@[k].profile.user_id@ == id);
        }
    }
}

/// Frame fact: rewriting one entry's profile in place -- its address kept,
/// its new user id unique -- leaves every other binding unchanged.
pub proof fn lemma_profile_entry_changed(pre: ProfileRegistry, post: ProfileRegistry, i: int)
    requires
        pre.wf(),
        0 <= i < pre.entries@.len(),
        post.entries@.len() == pre.entries@.len(),
        post.entries@[i].address == pre.entries@[i].address,
        forall|k: int| 0 <= k < pre.entries@.len() && k != i ==> post.entries@[k] == pre.entries@[k],
        forall|k: int|
            0 <= k < pre.entries@.len() && k != i ==> pre.entries@[k].profile.user_id@
                != post.entries@[i].profile.user_id@,
    ensures
        post.wf(),
        post.has_address(pre.entries@[i].address@),
        post.profile_of(pre.entries@[i].address@) == post.entries@[i].profile,
        post.has_user_id(post.entries@[i].profile.user_id@),
        post.address_of(post.entries@[i].profile.user_id@) == post.entries@[i].address,
        forall|a: Seq<char>|
            a != pre.entries@[i].address@ ==> post.has_address(a) == pre.has_address(a) && (
            pre.has_address(a) ==> post.profile_of(a) == pre.profile_of(a)),
        forall|id: Seq<char>|
            id != pre.entries@[i].profile.user_id@ && id != post.entries@[i].profile.user_id@
                ==> post.has_user_id(id) == pre.has_user_id(id) && (pre.has_user_id(id)
                ==> post.address_of(id) == pre.address_of(id)),
        pre.entries@[i].profile.user_id@ != post.entries@[i].profile.user_id@
            ==> !post.has_user_id(pre.entries@[i].profile.user_id@),
{
    let old_id = pre.entries@[i].profile.user_id@;
    let new_id = post.entries@[i].profile.user_id@;
    assert(post.wf()) by {
        assert forall|a: int, b: int|
            0 <= a < b < post.entries@.len() implies post.entries@[a].address@
            != post.entries@[b].address@ && post.entries@[a].profile.user_id@
            != post.entries@[b].profile.user_id@ by {
            if a != i && b != i {
            } else if a == i {
                assert(post.entries@[b] == pre.entries@[b]);
            } else {
                assert(post.entries@[a] == pre.entries@[a]);
            }
        }
    }
    post.lemma_entry_at(i);
    pre.lemma_entry_at(i);
    assert forall|a: Seq<char>| a != pre.entries@[i].address@ implies post.has_address(a)
        == pre.has_address(a) && (pre.has_address(a) ==> post.profile_of(a) == pre.profile_of(
        a,
    )) by {
        if pre.has_address(a) {
            let k = pre.addr_index(a);
            assert(0 <= k < pre.entries@.len() && pre.entries@[k].address@ == a);
            assert(k != i);
            pre.lemma_entry_at(k);
            post.lemma_entry_at(k);
        } else if post.has_address(a) {
            let k = post.addr_index(a);
            assert(0 <= k < post.entries@.len() && post.entries@[k].address@ == a);
            assert(k != i);
            assert(pre.entries@[k].address@ == a);
        }
    }
    assert forall|id: Seq<char>| id != old_id && id != new_id implies post.has_user_id(id)
        == pre.has_user_id(id) && (pre.has_user_id(id) ==> post.address_of(id) == pre.address_of(
        id,
    )) by {
        if pre.has_user_id(id) {
            let k = pre.id_index(id);
            assert(0 <= k < pre.entries@.len() && pre.entries@[k].profile.user_id@ == id);
            assert(k != i);
            pre.lemma_entry_at(k);
            post.lemma_entry_at(k);
        } else if post.has_user_id(id) {
            let k = post.id_index(id);
            assert(0 <= k < post.entries@.len() && post.entries@[k].profile.user_id@ == id);
            assert(k != i);
            assert(pre.entries@[k].profile.user_id@ == id);
        }
    }
    if old_id != new_id {
        assert(!post.has_user_id(old_id)) by {
            if post.has_user_id(old_id) {
                let k = post.id_index(old_id);
                assert(0 <= k < post.entries@.len() && post.entries@[k].profile.user_id@
                    == old_id);
                assert(k != i);
                assert(pre.entries@[k].profile.user_id@ == old_id);
                pre.lemma_entry_at(k);
                assert(k == pre.id_index(old_id));
                assert(k == i);
            }
        }
    }
}

/// How a profile creation relates the registry before the call to the
/// registry after it: the owner binds a fresh user id and a fresh address
/// to one new profile; a clash on either key, checked in that order,
/// refuses the call and changes nothing.
pub open spec fn create_profile_post(
    pre: ProfileRegistry,
    post: ProfileRegistry,
    info: MessageInfo,
    address: String,
    user_id: String,
    pubkey: String,
    r: Result<(), ProfilesError>,
) -> bool {
    &&& post.wf()
    &&& post.ownership == pre.ownership
    &&& if !pre.ownership.is_owner(info.sender@) {
        &&& r == Err::<(), ProfilesError>(ProfilesError::Ownership(pre.ownership.owner_error()))
        &&& post == pre
    } else if pre.has_user_id(user_id@) {
        &&& r == Err::<(), ProfilesError>(ProfilesError::UserIdAlreadyExists)
        &&& post == pre
    } else if pre.has_address(address@) {
        &&& r == Err::<(), ProfilesError>(ProfilesError::AddressHasProfile)
        &&& post == pre
    } else {
        &&& r is Ok
        &&& post.has_address(address@)
        &&& post.has_user_id(user_id@)
        &&& post.profile_of(address@) == (Profile { user_id, pubkey })
        &&& post.address_of(user_id@) == address
        &&& forall|a: Seq<char>|
            a != address@ ==> post.has_address(a) == pre.has_address(a) && (pre.has_address(a)
                ==> post.profile_of(a) == pre.profile_of(a))
        &&& forall|id: Seq<char>|
            id != user_id@ ==> post.has_user_id(id) == pre.has_user_id(id) && (pre.has_user_id(id)
                ==> post.address_of(id) == pre.address_of(id))
    }
}

/// How a rename relates the registry before the call to the registry after
/// it: the owner rebinds an existing profile to a new user id, provided no
/// other profile holds it; the profile's address and public key stay.
pub open spec fn change_user_id_post(
    pre: ProfileRegistry,
    post: ProfileRegistry,
    info: MessageInfo,
    address: String,
    user_id: String,
    r: Result<(), ProfilesError>,
) -> bool {
    &&& post.wf()
    &&& post.ownership == pre.ownership
    &&& if !pre.ownership.is_owner(info.sender@) {
        &&& r == Err::<(), ProfilesError>(ProfilesError::Ownership(pre.ownership.owner_error()))
        &&& post == pre
    } else if !pre.has_address(address@) {
        &&& r == Err::<(), ProfilesError>(ProfilesError::ProfileNotFound)
        &&& post == pre
    } else if pre.has_user_id(user_id@) && pre.address_of(user_id@)@ != address@ {
        &&& r == Err::<(), ProfilesError>(ProfilesError::UserIdAlreadyExists)
        &&& post == pre
    } else {
        &&& r is Ok
        &&& post.has_address(address@)
        &&& post.profile_of(address@) == (Profile {
            user_id,
            pubkey: pre.profile_of(address@).pubkey,
        })
        &&& post.has_user_id(user_id@)
        &&& post.address_of(user_id@)@ == address@
        &&& pre.profile_of(address@).user_id@ != user_id@ ==> !post.has_user_id(
            pre.profile_of(address@).user_id@,
        )
        &&& forall|a: Seq<char>|
            a != address@ ==> post.has_address(a) == pre.has_address(a) && (pre.has_address(a)
                ==> post.profile_of(a) == pre.profile_of(a))
        &&& forall|id: Seq<char>|
            id != user_id@ && id != pre.profile_of(address@).user_id@ ==> post.has_user_id(id)
                == pre.has_user_id(id) && (pre.has_user_id(id) ==> post.address_of(id)
                == pre.address_of(id))
    }
}

/// How a rekey relates the registry before the call to the registry after
/// it: the owner replaces an existing profile's public key; every binding
/// stays as it was.
pub open spec fn change_pubkey_post(
    pre: ProfileRegistry,
    post: ProfileRegistry,
    info: MessageInfo,
    address: String,
    pubkey: String,
    r: Result<(), ProfilesError>,
) -> bool {
    &&& post.wf()
    &&& post.ownership == pre.ownership
    &&& if !pre.ownership.is_owner(info.sender@) {
        &&& r == Err::<(), ProfilesError>(ProfilesError::Ownership(pre.ownership.owner_error()))
        &&& post == pre
    } else if !pre.has_address(address@) {
        &&& r == Err::<(), ProfilesError>(ProfilesError::ProfileNotFound)
        &&& post == pre
    } else {
        &&& r is Ok
        &&& post.has_address(address@)
        &&& post.profile_of(address@) == (Profile {
            user_id: pre.profile_of(address@).user_id,
            pubkey,
        })
        &&& forall|a: Seq<char>|
            a != address@ ==> post.has_address(a) == pre.has_address(a) && (pre.has_address(a)
                ==> post.profile_of(a) == pre.profile_of(a))
        &&& forall|id: Seq<char>|
            post.has_user_id(id) == pre.has_user_id(id) && (pre.has_user_id(id) && id
                != pre.profile_of(address@).user_id@ ==> post.address_of(id) == pre.address_of(id))
    }
}

impl ProfileRegistry {
    /// Bind a new profile; owner only. The user id must be new and the
    /// address must not have a profile yet, checked in that order.
    pub fn create_profile(
        &mut self,
        info: &MessageInfo,
        address: String,
        user_id: String,
        pubkey: String,
    ) -> (r: Result<(), ProfilesError>)
        requires
            old(self).wf(),
        ensures
            create_profile_post(*old(self), *final(self), *info, address, user_id, pubkey, r),
    {
        if let Err(e) = self.ownership.assert_owner(&info.sender) {
            return Err(ProfilesError::Ownership(e));
        }
        if let Some(_) = self.find_by_user_id(&user_id) {
            return Err(ProfilesError::UserIdAlreadyExists);
        }
        if let Some(_) = self.find_by_address(&address) {
            return Err(ProfilesError::AddressHasProfile);
        }
        let ghost pre = *self;
        self.entries.push(ProfileEntry { address, profile: Profile { user_id, pubkey } });
        proof {
            lemma_profile_appended(pre, *self);
        }
        Ok(())
    }

    /// Rebind an existing profile to a new user id; owner only. The new id
    /// must not be held by any other profile; rebinding a profile to its
    /// own current id is allowed.
    pub fn change_user_id(&mut self, info: &MessageInfo, address: String, user_id: String) -> (r:
        Result<(), ProfilesError>)
        requires
            old(self).wf(),
        ensures
            change_user_id_post(*old(self), *final(self), *info, address, user_id, r),
    {
        if let Err(e) = self.ownership.assert_owner(&info.sender) {
            return Err(ProfilesError::Ownership(e));
        }
        let i = match self.find_by_address(&address) {
            Some(i) => i,
            None => {
                return Err(ProfilesError::ProfileNotFound);
            },
        };
        match self.find_by_user_id(&user_id) {
            Some(j) => {
                if j != i {
                    proof {
                        self.lemma_entry_at(j as int);
                        self.lemma_entry_at(i as int);
                    }
                    return Err(ProfilesError::UserIdAlreadyExists);
                }
            },
            None => {},
        }
        let ghost pre = *self;
        proof {
            pre.lemma_entry_at(i as int);
        }
        let slot = &mut self.entries[i];
        slot.profile.user_id = user_id;
        proof {
            assert forall|k: int|
                0 <= k < pre.entries@.len() && k != i implies pre.entries@[k].profile.user_id@
                != self.entries@[i as int].profile.user_id@ by {
                pre.lemma_entry_at(k);
            }
            lemma_profile_entry_changed(pre, *self, i as int);
        }
        Ok(())
    }

    /// Replace an existing profile's public key; owner only.
    pub fn change_pubkey(&mut self, info: &MessageInfo, address: String, pubkey: String) -> (r:
        Result<(), ProfilesError>)
        requires
            old(self).wf(),
        ensures
            change_pubkey_post(*old(self), *final(self), *info, address, pubkey, r),
    {
        if let Err(e) = self.ownership.assert_owner(&info.sender) {
            return Err(ProfilesError::Ownership(e));
        }
        let i = match self.find_by_address(&address) {
            Some(i) => i,
            None => {
                return Err(ProfilesError::ProfileNotFound);
            },
        };
        let ghost pre = *self;
        proof {
            pre.lemma_entry_at(i as int);
        }
        let slot = &mut self.entries[i];
        slot.profile.pubkey = pubkey;
        proof {
            assert forall|k: int|
                0 <= k < pre.entries@.len() && k != i implies pre.entries@[k].profile.user_id@
                != self.entries@[i as int].profile.user_id@ by {
                pre.lemma_entry_at(k);
            }
            lemma_profile_entry_changed(pre, *self, i as int);
        }
        Ok(())
    }

    /// Who a user id resolves to, with the profile's public key.
    pub fn query_user_info(&self, user_id: &String) -> (r: Result<ProfileInfo, ProfilesError>)
        requires
            self.wf(),
        ensures
            match r {
                Ok(p) => {
                    &&& self.has_user_id(user_id@)
                    &&& p.address@ == self.address_of(user_id@)@
                    &&& p.user_id@ == user_id@
                    &&& p.pubkey@ == self.profile_of(self.address_of(user_id@)@).pubkey@
                },
                Err(ProfilesError::ProfileNotFound) => !self.has_user_id(user_id@),
                Err(_) => false,
            },
    {
        let i = match self.find_by_user_id(user_id) {
            Some(i) => i,
            None => {
                return Err(ProfilesError::ProfileNotFound);
            },
        };
        proof {
            self.lemma_entry_at(i as int);
        }
        Ok(ProfileInfo {
            address: self.entries[i].address.clone(),
            user_id: user_id.clone(),
            pubkey: self.entries[i].profile.pubkey.clone(),
        })
    }

    /// The profile bound to an address.
    pub fn query_address_info(&self, address: &String) -> (r: Result<ProfileInfo, ProfilesError>)
        requires
            self.wf(),
        ensures
            match r {
                Ok(p) => {
                    &&& self.has_address(address@)
                    &&& p.address@ == address@
                    &&& p.user_id@ == self.profile_of(address@).user_id@
                    &&& p.pubkey@ == self.profile_of(address@).pubkey@
                },
                Err(ProfilesError::ProfileNotFound) => !self.has_address(address@),
                Err(_) => false,
            },
    {
        let i = match self.find_by_address(address) {
            Some(i) => i,
            None => {
                return Err(ProfilesError::ProfileNotFound);
            },
        };
        Ok(ProfileInfo {
            address: address.clone(),
            user_id: self.entries[i].profile.user_id.clone(),
            pubkey: self.entries[i].profile.pubkey.clone(),
        })
    }

    /// Answer one lookup: both directions report the same triple of
    /// address, user id and public key.
    pub fn query(&self, msg: ProfilesQueryMsg) -> (r: Result<ProfileInfo, ProfilesError>)
        requires
            self.wf(),
        ensures
            match msg {
                ProfilesQueryMsg::UserInfo { user_id } => match r {
                    Ok(p) => {
                        &&& self.has_user_id(user_id@)
                        &&& p.address@ == self.address_of(user_id@)@
                        &&& p.user_id@ == user_id@
                        &&& p.pubkey@ == self.profile_of(self.address_of(user_id@)@).pubkey@
                    },
                    Err(ProfilesError::ProfileNotFound) => !self.has_user_id(user_id@),
                    Err(_) => false,
                },
                ProfilesQueryMsg::AddressInfo { address } => match r {
                    Ok(p) => {
                        &&& self.has_address(address@)
                        &&& p.address@ == address@
                        &&& p.user_id@ == self.profile_of(address@).user_id@
                        &&& p.pubkey@ == self.profile_of(address@).pubkey@
                    },
                    Err(ProfilesError::ProfileNotFound) => !self.has_address(address@),
                    Err(_) => false,
                },
            },
    {
        match msg {
            ProfilesQueryMsg::UserInfo { user_id } => self.query_user_info(&user_id),
            ProfilesQueryMsg::AddressInfo { address } => self.query_address_info(&address),
        }
    }

    /// Hand an ownership action to the registry's owner slot.
    pub fn update_ownership(&mut self, info: &MessageInfo, action: Action) -> (r: Result<
        (),
        ProfilesError,
    >)
        requires
            old(self).wf(),
        ensures
            final(self).wf(),
            final(self).entries == old(self).entries,
            match r {
                Ok(()) => update_ownership_post(
                    old(self).ownership,
                    final(self).ownership,
                    info.sender@,
                    action,
                    Ok(()),
                ),
                Err(ProfilesError::Ownership(e)) => update_ownership_post(
                    old(self).ownership,
                    final(self).ownership,
                    info.sender@,
                    action,
                    Err(e),
                ),
                Err(_) => false,
            },
    {
        match self.ownership.update_ownership(&info.sender, action) {
            Ok(()) => Ok(()),
            Err(e) => Err(ProfilesError::Ownership(e)),
        }
    }

    /// One decoded request dispatched to the registry.
    pub fn execute(&mut self, info: MessageInfo, msg: ProfilesExecuteMsg) -> (r: Result<
        (),
        ProfilesError,
    >)
        requires
            old(self).wf(),
        ensures
            final(self).wf(),
            match msg {
                ProfilesExecuteMsg::CreateProfile { address, user_id, pubkey } => create_profile_post(
                    *old(self),
                    *final(self),
                    info,
                    address,
                    user_id,
                    pubkey,
                    r,
                ),
                ProfilesExecuteMsg::ChangeUserId { address, user_id } => change_user_id_post(
                    *old(self),
                    *final(self),
                    info,
                    address,
                    user_id,
                    r,
                ),
                ProfilesExecuteMsg::ChangePubkey { address, pubkey } => change_pubkey_post(
                    *old(self),
                    *final(self),
                    info,
                    address,
                    pubkey,
                    r,
                ),
                ProfilesExecuteMsg::UpdateOwnership(action) => {
                    &&& final(self).entries == old(self).entries
                    &&& match r {
                        Ok(()) => update_ownership_post(
                            old(self).ownership,
                            final(self).ownership,
                            info.sender@,
                            action,
                            Ok(()),
                        ),
                        Err(ProfilesError::Ownership(e)) => update_ownership_post(
                            old(self).ownership,
                            final(self).ownership,
                            info.sender@,
                            action,
                            Err(e),
                        ),
                        Err(_) => false,
                    }
                },
            },
    {
        match msg {
            ProfilesExecuteMsg::CreateProfile { address, user_id, pubkey } => {
                self.create_profile(&info, address, user_id, pubkey)
            },
            ProfilesExecuteMsg::ChangeUserId { address, user_id } => {
                self.change_user_id(&info, address, user_id)
            },
            ProfilesExecuteMsg::ChangePubkey { address, pubkey } => {
                self.change_pubkey(&info, address, pubkey)
            },
            ProfilesExecuteMsg::UpdateOwnership(action) => self.update_ownership(&info, action),
        }
    }
}

} // verus!
