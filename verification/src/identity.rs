use crate::clock::ledger_time;
use crate::errors::{ErrorCode, Failure};
use crate::key::Key;
use crate::state::{
    uri_fits, Identity, IdentityView, DID_METHOD, MAX_RECOVERY_ACCOUNTS, MAX_URI_LENGTH,
};
use vstd::prelude::*;

verus! {

impl IdentityView {
    /// What the registry keeps true of every identity: at most three
    /// guardians, none of them twice, the owner not among them, and a
    /// metadata URI that fits.
    pub open spec fn well_formed(self) -> bool {
        &&& self.recovery_accounts.len() <= MAX_RECOVERY_ACCOUNTS
        &&& self.recovery_accounts.no_duplicates()
        &&& !self.recovery_accounts.contains(self.owner)
        &&& uri_fits(self.metadata_uri)
    }

    /// The record that `owner` creates at time `now`, or the reason for which
    /// the request is refused. Nothing of the record from before is kept.
    pub open spec fn create(
        self,
        owner: Key,
        did_identifier: Seq<u8>,
        metadata_uri: Seq<char>,
        metadata_merkle_root: Seq<u8>,
        bump: u8,
        now: i64,
    ) -> Result<IdentityView, ErrorCode> {
        if !uri_fits(metadata_uri) {
            Err(ErrorCode::InvalidMetadataUri)
        } else {
            Ok(
                IdentityView {
                    owner,
                    did_method: DID_METHOD@,
                    did_identifier,
                    recovery_accounts: Seq::empty(),
                    metadata_uri,
                    metadata_merkle_root,
                    bump,
                    created_at: now,
                    updated_at: now,
                },
            )
        }
    }

    /// The record after `payer` replaces its metadata at time `now`, or the
    /// reason for which the request is refused.
    pub open spec fn update(
        self,
        payer: Key,
        metadata_uri: Seq<char>,
        metadata_merkle_root: Seq<u8>,
        bump: u8,
        now: i64,
    ) -> Result<IdentityView, ErrorCode> {
        if payer != self.owner {
            Err(ErrorCode::Unauthorized)
        } else if !uri_fits(metadata_uri) {
            Err(ErrorCode::InvalidMetadataUri)
        } else {
            Ok(IdentityView { metadata_uri, metadata_merkle_root, bump, updated_at: now, ..self })
        }
    }

    /// The record after `payer` asks to enroll `account` as a guardian, or
    /// the reason for which the request is refused.
    pub open spec fn add_recovery_account(self, payer: Key, account: Key) -> Result<
        IdentityView,
        ErrorCode,
    > {
        if payer != self.owner {
            Err(ErrorCode::Unauthorized)
        } else if account == self.owner {
            Err(ErrorCode::RecoveryAccountIsOwner)
        } else if self.recovery_accounts.len() >= MAX_RECOVERY_ACCOUNTS {
            Err(ErrorCode::MaxRecoveryAccounts)
        } else if self.recovery_accounts.contains(account) {
            Err(ErrorCode::RecoveryAccountAlreadyExists)
        } else {
            Ok(IdentityView { recovery_accounts: self.recovery_accounts.push(account), ..self })
        }
    }

    /// The record after `payer` asks to dismiss the guardian `account`, or the
    /// reason for which the request is refused. The guardians that stay keep
    /// their order.
    pub open spec fn remove_recovery_account(self, payer: Key, account: Key) -> Result<
        IdentityView,
        ErrorCode,
    > {
        if payer != self.owner {
            Err(ErrorCode::Unauthorized)
        } else {
            match self.recovery_accounts.index_of_first(account) {
                None => Err(ErrorCode::RecoveryAccountNotFound),
                Some(i) => Ok(
                    IdentityView { recovery_accounts: self.recovery_accounts.remove(i), ..self },
                ),
            }
        }
    }

    /// The record after the guardian `new_owner` takes the identity over, or
    /// the reason for which the request is refused. A take-over dismisses
    /// every guardian.
    pub open spec fn recover(self, new_owner: Key) -> Result<IdentityView, ErrorCode> {
        if !self.recovery_accounts.contains(new_owner) {
            Err(ErrorCode::RecoveryAccountNotFound)
        } else {
            Ok(IdentityView { owner: new_owner, recovery_accounts: Seq::empty(), ..self })
        }
    }
}

/// Whether a request left the record as `outcome` says: on success the record
/// is the new one, on refusal the caller gets the reason and the record is the
/// one from before.
pub open spec fn settled(
    before: IdentityView,
    outcome: Result<IdentityView, ErrorCode>,
    after: IdentityView,
    reply: Result<(), ErrorCode>,
) -> bool {
    match outcome {
        Ok(next) => reply == Ok::<(), ErrorCode>(()) && after == next,
        Err(code) => reply == Err::<(), ErrorCode>(code) && after == before,
    }
}

/// Taking one entry out of a list leaves no key in it that was not there, and
/// no key twice if none was there twice.
pub proof fn lemma_remove_keeps_distinct(keys: Seq<Key>, i: int)
    requires
        0 <= i < keys.len(),
    ensures
        forall|key: Key| keys.remove(i).contains(key) ==> keys.contains(key),
        keys.no_duplicates() ==> keys.remove(i).no_duplicates(),
{
    let rest = keys.remove(i);
    assert forall|key: Key| rest.contains(key) implies keys.contains(key) by {
        let j = choose|j: int| 0 <= j < rest.len() && rest[j] == key;
        if j < i {
            assert(keys[j] == key);
        } else {
            assert(keys[j + 1] == key);
        }
    }
    if keys.no_duplicates() {
        assert forall|a: int, b: int| 0 <= a < rest.len() && 0 <= b < rest.len() && a != b implies rest[a]
            != rest[b] by {
            let a0 = if a < i { a } else { a + 1 };
            let b0 = if b < i { b } else { b + 1 };
            assert(rest[a] == keys[a0] && rest[b] == keys[b0]);
        }
    }
}

/// Index of the first occurrence of `key` in `keys`, if it occurs there.
pub fn position(keys: &Vec<Key>, key: Key) -> (found: Option<usize>)
    ensures
        match found {
            Some(i) => {
                &&& i < keys.len()
                &&& keys@[i as int] == key
                &&& forall|j: int| 0 <= j < i ==> keys@[j] != key
                &&& keys@.index_of_first(key) == Some(i as int)
            },
            None => !keys@.contains(key) && keys@.index_of_first(key) == None::<int>,
        },
{
    let mut i: usize = 0;
    while i < keys.len()
        invariant
            i <= keys.len(),
            forall|j: int| 0 <= j < i ==> keys@[j] != key,
        decreases keys.len() - i,
    {
        if keys[i] == key {
            proof {
                keys@.index_of_first_ensures(key);
            }
            return Some(i);
        }
        i += 1;
    }
    proof {
        keys@.index_of_first_ensures(key);
    }
    None
}

impl Identity {
    /// Fills the record for a new identity of `owner`, created at time `now`.
    pub fn create_at(
        &mut self,
        owner: Key,
        did_identifier: Vec<u8>,
        metadata_uri: String,
        metadata_merkle_root: Vec<u8>,
        bump: u8,
        now: i64,
    ) -> (reply: Result<(), ErrorCode>)
        ensures
            settled(
                old(self)@,
                old(self)@.create(
                    owner,
                    did_identifier@,
                    metadata_uri@,
                    metadata_merkle_root@,
                    bump,
                    now,
                ),
                final(self)@,
                reply,
            ),
            reply is Ok ==> final(self)@.well_formed(),
    {
        if metadata_uri.as_str().as_bytes().len() > MAX_URI_LENGTH {
            return Err(ErrorCode::InvalidMetadataUri);
        }
        self.owner = owner;
        self.did_method = DID_METHOD.to_owned();
        self.did_identifier = did_identifier;
        self.recovery_accounts = Vec::new();
        self.metadata_uri = metadata_uri;
        self.metadata_merkle_root = metadata_merkle_root;
        self.created_at = now;
        self.updated_at = now;
        self.bump = bump;
        Ok(())
    }

    /// Replaces the identity's metadata on behalf of `payer`, at time `now`.
    pub fn update_at(
        &mut self,
        payer: Key,
        metadata_uri: String,
        metadata_merkle_root: Vec<u8>,
        bump: u8,
        now: i64,
    ) -> (reply: Result<(), ErrorCode>)
        ensures
            settled(
                old(self)@,
                old(self)@.update(payer, metadata_uri@, metadata_merkle_root@, bump, now),
                final(self)@,
                reply,
            ),
            old(self)@.well_formed() ==> final(self)@.well_formed(),
    {
        if payer != self.owner {
            return Err(ErrorCode::Unauthorized);
        }
        if metadata_uri.as_str().as_bytes().len() > MAX_URI_LENGTH {
            return Err(ErrorCode::InvalidMetadataUri);
        }
        self.metadata_uri = metadata_uri;
        self.metadata_merkle_root = metadata_merkle_root;
        self.updated_at = now;
        self.bump = bump;
        Ok(())
    }

    /// Fills the record for a new identity of `owner`, created at the ledger's
    /// present time. A URI that is too long is refused before the clock is
    /// read.
    pub fn create(
        &mut self,
        owner: Key,
        did_identifier: Vec<u8>,
        metadata_uri: String,
        metadata_merkle_root: Vec<u8>,
        bump: u8,
    ) -> (reply: Result<(), Failure>)
        ensures
            !uri_fits(metadata_uri@) ==> reply matches Err(
                Failure::Rejected(ErrorCode::InvalidMetadataUri),
            ),
            uri_fits(metadata_uri@) ==> (reply matches Err(failure) ==> failure is Runtime),
            reply is Err ==> final(self)@ == old(self)@,
            reply is Ok ==> old(self)@.create(
                owner,
                did_identifier@,
                metadata_uri@,
                metadata_merkle_root@,
                bump,
                final(self).created_at,
            ) == Ok::<IdentityView, ErrorCode>(final(self)@),
            reply is Ok ==> final(self)@.well_formed(),
    {
        if metadata_uri.as_str().as_bytes().len() > MAX_URI_LENGTH {
            return Err(Failure::Rejected(ErrorCode::InvalidMetadataUri));
        }
        match ledger_time() {
            Err(error) => Err(Failure::Runtime(error)),
            Ok(now) => match self.create_at(
                owner,
                did_identifier,
                metadata_uri,
                metadata_merkle_root,
                bump,
                now,
            ) {
                Ok(()) => Ok(()),
                Err(code) => Err(Failure::Rejected(code)),
            },
        }
    }

    /// Replaces the identity's metadata on behalf of `payer`, at the ledger's
    /// present time. A request that the registry refuses is refused before
    /// the clock is read.
    pub fn update(
        &mut self,
        payer: Key,
        metadata_uri: String,
        metadata_merkle_root: Vec<u8>,
        bump: u8,
    ) -> (reply: Result<(), Failure>)
        ensures
            payer != old(self).owner ==> reply matches Err(
                Failure::Rejected(ErrorCode::Unauthorized),
            ),
            payer == old(self).owner && !uri_fits(metadata_uri@) ==> reply matches Err(
                Failure::Rejected(ErrorCode::InvalidMetadataUri),
            ),
            payer == old(self).owner && uri_fits(metadata_uri@) ==> (reply matches Err(failure)
                ==> failure is Runtime),
            reply is Err ==> final(self)@ == old(self)@,
            reply is Ok ==> old(self)@.update(
                payer,
                metadata_uri@,
                metadata_merkle_root@,
                bump,
                final(self).updated_at,
            ) == Ok::<IdentityView, ErrorCode>(final(self)@),
            old(self)@.well_formed() ==> final(self)@.well_formed(),
    {
        if payer != self.owner {
            return Err(Failure::Rejected(ErrorCode::Unauthorized));
        }
        if metadata_uri.as_str().as_bytes().len() > MAX_URI_LENGTH {
            return Err(Failure::Rejected(ErrorCode::InvalidMetadataUri));
        }
        match ledger_time() {
            Err(error) => Err(Failure::Runtime(error)),
            Ok(now) => match self.update_at(payer, metadata_uri, metadata_merkle_root, bump, now) {
                Ok(()) => Ok(()),
                Err(code) => Err(Failure::Rejected(code)),
            },
        }
    }

    /// Enrolls `recovery_account` as a guardian, at the end of the list, on
    /// behalf of `payer`.
    pub fn add_recovery_account(&mut self, payer: Key, recovery_account: Key) -> (reply: Result<
        (),
        ErrorCode,
    >)
        ensures
            settled(
                old(self)@,
                old(self)@.add_recovery_account(payer, recovery_account),
                final(self)@,
                reply,
            ),
            old(self)@.well_formed() ==> final(self)@.well_formed(),
    {
        if payer != self.owner {
            return Err(ErrorCode::Unauthorized);
        }
        if self.owner == recovery_account {
            return Err(ErrorCode::RecoveryAccountIsOwner);
        }
        if self.recovery_accounts.len() >= MAX_RECOVERY_ACCOUNTS {
            return Err(ErrorCode::MaxRecoveryAccounts);
        }
        if position(&self.recovery_accounts, recovery_account).is_some() {
            return Err(ErrorCode::RecoveryAccountAlreadyExists);
        }
        self.recovery_accounts.push(recovery_account);
        Ok(())
    }

    /// Dismisses the guardian `recovery_account` on behalf of `payer`.
    pub fn remove_recovery_account(&mut self, payer: Key, recovery_account: Key) -> (reply:
        Result<(), ErrorCode>)
        ensures
            settled(
                old(self)@,
                old(self)@.remove_recovery_account(payer, recovery_account),
                final(self)@,
                reply,
            ),
            old(self)@.well_formed() ==> final(self)@.well_formed(),
    {
        if payer != self.owner {
            return Err(ErrorCode::Unauthorized);
        }
        match position(&self.recovery_accounts, recovery_account) {
            None => Err(ErrorCode::RecoveryAccountNotFound),
            Some(index) => {
                proof {
                    lemma_remove_keeps_distinct(self.recovery_accounts@, index as int);
                }
                self.recovery_accounts.remove(index);
                Ok(())
            },
        }
    }

    /// Hands the identity to the guardian `new_owner` and dismisses every
    /// guardian.
    pub fn recover(&mut self, new_owner: Key) -> (reply: Result<(), ErrorCode>)
        ensures
            settled(old(self)@, old(self)@.recover(new_owner), final(self)@, reply),
            reply is Ok ==> final(self).owner == new_owner && final(self).recovery_accounts@.len()
                == 0,
            old(self)@.well_formed() ==> final(self)@.well_formed(),
    {
        if position(&self.recovery_accounts, new_owner).is_none() {
            return Err(ErrorCode::RecoveryAccountNotFound);
        }
        self.recovery_accounts = Vec::new();
        self.owner = new_owner;
        Ok(())
    }
}

} // verus!
