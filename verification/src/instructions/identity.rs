use crate::clock::ledger_time;
use crate::errors::{ErrorCode, Failure};
use crate::identity::settled;
use crate::key::{key_text, render_key, Key};
use crate::state::{uri_fits, Identity, IdentityView, Network, DID_METHOD, MAX_URI_LENGTH};
use vstd::prelude::*;
use vstd::slice::slice_to_vec;
use vstd::utf8::encode_utf8;

verus! {

/// The DID identifier of the identity whose owner's key reads `text`: the
/// bytes of the method, a colon and the text.
pub open spec fn did_identifier_of(text: Seq<char>) -> Seq<u8> {
    encode_utf8(DID_METHOD@ + ":"@ + text)
}

/// The DID identifier for an owner whose key reads `text`.
pub fn did_identifier_from_text(text: &str) -> (identifier: Vec<u8>)
    ensures
        identifier@ == did_identifier_of(text@),
{
    let identifier: String = DID_METHOD.to_owned().concat(":").concat(text);
    slice_to_vec(identifier.as_str().as_bytes())
}

/// The DID identifier of the identity that `owner` controls.
pub fn did_identifier(owner: &Key) -> (identifier: Vec<u8>)
    ensures
        identifier@ == did_identifier_of(key_text(owner@)),
{
    let text: String = render_key(owner);
    did_identifier_from_text(text.as_str())
}

/// The records that a request to create an identity works on, and the key
/// that signed it.
pub struct CreateIdentity {
    pub network: Network,
    pub identity: Identity,
    pub payer: Key,
}

impl CreateIdentity {
    /// The DID identifier that the new identity gets: that of the signer.
    pub open spec fn identifier(self) -> Seq<u8> {
        did_identifier_of(key_text(self.payer@))
    }

    /// Creates the signer's identity at time `now` and counts it in the
    /// network record. A refused request changes neither record.
    pub fn handler_at(
        &mut self,
        metadata_uri: String,
        metadata_merkle_root: Vec<u8>,
        bump: u8,
        now: i64,
    ) -> (reply: Result<(), ErrorCode>)
        requires
            old(self).network.total_identities < u64::MAX,
        ensures
            settled(
                old(self).identity@,
                old(self).identity@.create(
                    old(self).payer,
                    old(self).identifier(),
                    metadata_uri@,
                    metadata_merkle_root@,
                    bump,
                    now,
                ),
                final(self).identity@,
                reply,
            ),
            final(self).payer == old(self).payer,
            final(self).network.admin == old(self).network.admin,
            reply is Ok ==> final(self).network.total_identities == old(self).network.total_identities + 1,
            reply is Err ==> final(self).network.total_identities == old(self).network.total_identities,
            reply is Ok ==> final(self).identity@.well_formed(),
    {
        let identifier = did_identifier(&self.payer);
        self.identity.create_at(
            self.payer,
            identifier,
            metadata_uri,
            metadata_merkle_root,
            bump,
            now,
        )?;
        self.network.total_identities = self.network.total_identities + 1;
        Ok(())
    }

    /// Creates the signer's identity at the ledger's present time and counts
    /// it in the network record. A URI that is too long is refused before the
    /// clock is read; a request that fails changes neither record.
    pub fn handler(&mut self, metadata_uri: String, metadata_merkle_root: Vec<u8>, bump: u8) -> (reply:
        Result<(), Failure>)
        requires
            old(self).network.total_identities < u64::MAX,
        ensures
            !uri_fits(metadata_uri@) ==> reply matches Err(
                Failure::Rejected(ErrorCode::InvalidMetadataUri),
            ),
            uri_fits(metadata_uri@) ==> (reply matches Err(failure) ==> failure is Runtime),
            final(self).payer == old(self).payer,
            final(self).network.admin == old(self).network.admin,
            reply is Err ==> final(self).identity@ == old(self).identity@,
            reply is Err ==> final(self).network.total_identities == old(self).network.total_identities,
            reply is Ok ==> old(self).identity@.create(
                old(self).payer,
                old(self).identifier(),
                metadata_uri@,
                metadata_merkle_root@,
                bump,
                final(self).identity.created_at,
            ) == Ok::<IdentityView, ErrorCode>(final(self).identity@),
            reply is Ok ==> final(self).network.total_identities == old(self).network.total_identities + 1,
            reply is Ok ==> final(self).identity@.well_formed(),
    {
        if metadata_uri.as_str().as_bytes().len() > MAX_URI_LENGTH {
            return Err(Failure::Rejected(ErrorCode::InvalidMetadataUri));
        }
        match ledger_time() {
            Err(error) => Err(Failure::Runtime(error)),
            Ok(now) => match self.handler_at(metadata_uri, metadata_merkle_root, bump, now) {
                Ok(()) => Ok(()),
                Err(code) => Err(Failure::Rejected(code)),
            },
        }
    }
}

/// The records that a request to replace an identity's metadata works on,
/// and the key that signed it.
pub struct UpdateIdentity {
    pub network: Network,
    pub identity: Identity,
    pub payer: Key,
}

impl UpdateIdentity {
    /// Replaces the identity's metadata on behalf of the signer, at time
    /// `now`.
    pub fn handler_at(
        &mut self,
        metadata_uri: String,
        metadata_merkle_root: Vec<u8>,
        bump: u8,
        now: i64,
    ) -> (reply: Result<(), ErrorCode>)
        ensures
            settled(
                old(self).identity@,
                old(self).identity@.update(
                    old(self).payer,
                    metadata_uri@,
                    metadata_merkle_root@,
                    bump,
                    now,
                ),
                final(self).identity@,
                reply,
            ),
            final(self).payer == old(self).payer,
            final(self).network == old(self).network,
            old(self).identity@.well_formed() ==> final(self).identity@.well_formed(),
    {
        self.identity.update_at(self.payer, metadata_uri, metadata_merkle_root, bump, now)
    }

    /// Replaces the identity's metadata on behalf of the signer, at the
    /// ledger's present time.
    pub fn handler(&mut self, metadata_uri: String, metadata_merkle_root: Vec<u8>, bump: u8) -> (reply:
        Result<(), Failure>)
        ensures
            old(self).payer != old(self).identity.owner ==> reply matches Err(
                Failure::Rejected(ErrorCode::Unauthorized),
            ),
            old(self).payer == old(self).identity.owner && !uri_fits(metadata_uri@)
                ==> reply matches Err(Failure::Rejected(ErrorCode::InvalidMetadataUri)),
            old(self).payer == old(self).identity.owner && uri_fits(metadata_uri@) ==> (
            reply matches Err(failure) ==> failure is Runtime),
            final(self).payer == old(self).payer,
            final(self).network == old(self).network,
            reply is Err ==> final(self).identity@ == old(self).identity@,
            reply is Ok ==> old(self).identity@.update(
                old(self).payer,
                metadata_uri@,
                metadata_merkle_root@,
                bump,
                final(self).identity.updated_at,
            ) == Ok::<IdentityView, ErrorCode>(final(self).identity@),
            old(self).identity@.well_formed() ==> final(self).identity@.well_formed(),
    {
        self.identity.update(self.payer, metadata_uri, metadata_merkle_root, bump)
    }
}

/// The records that a request to enroll a guardian works on, and the key that
/// signed it.
pub struct AddRecoveryAccount {
    pub network: Network,
    pub identity: Identity,
    pub payer: Key,
}

impl AddRecoveryAccount {
    /// Enrolls `recovery_account` as a guardian on behalf of the signer.
    pub fn handler(&mut self, recovery_account: Key) -> (reply: Result<(), ErrorCode>)
        ensures
            settled(
                old(self).identity@,
                old(self).identity@.add_recovery_account(old(self).payer, recovery_account),
                final(self).identity@,
                reply,
            ),
            final(self).payer == old(self).payer,
            final(self).network == old(self).network,
            old(self).identity@.well_formed() ==> final(self).identity@.well_formed(),
    {
        self.identity.add_recovery_account(self.payer, recovery_account)
    }
}

/// The records that a request to dismiss a guardian works on, and the key
/// that signed it.
pub struct RemoveRecoveryAccount {
    pub network: Network,
    pub identity: Identity,
    pub payer: Key,
}

impl RemoveRecoveryAccount {
    /// Dismisses the guardian `recovery_account` on behalf of the signer.
    pub fn handler(&mut self, recovery_account: Key) -> (reply: Result<(), ErrorCode>)
        ensures
            settled(
                old(self).identity@,
                old(self).identity@.remove_recovery_account(old(self).payer, recovery_account),
                final(self).identity@,
                reply,
            ),
            final(self).payer == old(self).payer,
            final(self).network == old(self).network,
            old(self).identity@.well_formed() ==> final(self).identity@.well_formed(),
    {
        self.identity.remove_recovery_account(self.payer, recovery_account)
    }
}

/// The records that a guardian's request to take an identity over works on,
/// and the key that signed it.
pub struct RecoverAccount {
    pub network: Network,
    pub identity: Identity,
    pub payer: Key,
}

impl RecoverAccount {
    /// Hands the identity to the signer, if the signer is one of its
    /// guardians.
    pub fn handler(&mut self) -> (reply: Result<(), ErrorCode>)
        ensures
            settled(
                old(self).identity@,
                old(self).identity@.recover(old(self).payer),
                final(self).identity@,
                reply,
            ),
            final(self).payer == old(self).payer,
            final(self).network == old(self).network,
            old(self).identity@.well_formed() ==> final(self).identity@.well_formed(),
    {
        self.identity.recover(self.payer)
    }
}

} // verus!
