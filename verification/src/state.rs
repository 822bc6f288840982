use crate::key::Key;
use vstd::prelude::*;
use vstd::utf8::encode_utf8;

verus! {

/// Seed of the network record's address.
pub const NETWORK_SEED: &'static str = "sigil";

/// Seed of an identity record's address.
pub const IDENTITY_SEED: &'static str = "identity";

/// Seed of a recovery record's address.
pub const RECOVERY_SEED: &'static str = "recovery";

/// The DID method of every identity in the registry.
pub const DID_METHOD: &'static str = "did:sigil";

/// Seed of an asset record's address.
pub const ASSET_SEED: &'static str = "asset";

/// Longest DID method, in bytes, that a stored identity leaves room for.
pub const MAX_DID_METHOD_LENGTH: usize = 10;

/// Longest DID identifier, in bytes, that a stored identity leaves room for.
pub const MAX_IDENTIFIER_LENGTH: usize = 64;

/// Longest metadata URI, in bytes, that an identity stores.
pub const MAX_URI_LENGTH: usize = 200;

/// Most guardians that one identity may hold.
pub const MAX_RECOVERY_ACCOUNTS: usize = 3;

/// Bytes set aside for a stored identity: the owner, three length-prefixed
/// fields at their longest, and two timestamps.
pub const MAX_SIZE: usize = 32 + 4 + MAX_DID_METHOD_LENGTH + 4 + MAX_IDENTIFIER_LENGTH + 4
    + MAX_URI_LENGTH + 8 + 8;

/// Length in bytes of a text as it is stored, that is, of its UTF-8 encoding.
pub open spec fn stored_len(text: Seq<char>) -> nat {
    encode_utf8(text).len()
}

/// Whether a metadata URI is short enough to be stored.
pub open spec fn uri_fits(uri: Seq<char>) -> bool {
    stored_len(uri) <= MAX_URI_LENGTH
}

#[derive(Clone, Copy, Debug, PartialEq, Eq, Structural)]
pub enum LoanStatus {
    Offered,
    Accepted,
    Repaid,
    Defaulted,
}

#[derive(Clone, Copy, Debug, PartialEq, Eq, Structural)]
pub enum InvoiceStatus {
    Pending,
    Paid,
    Overdue,
}

/// The one network record: who administers the registry and how many
/// identities it has created.
#[derive(Clone, Copy, Debug)]
pub struct Network {
    pub admin: Key,
    pub total_identities: u64,
}

/// An identity record.
#[derive(Clone, Debug)]
pub struct Identity {
    /// The key that controls the identity.
    pub owner: Key,
    pub did_method: String,
    /// Fixed when the identity is created.
    pub did_identifier: Vec<u8>,
    /// The guardians, in the order in which they were enrolled.
    pub recovery_accounts: Vec<Key>,
    pub metadata_uri: String,
    pub metadata_merkle_root: Vec<u8>,
    pub bump: u8,
    pub created_at: i64,
    pub updated_at: i64,
}

/// What an identity record holds, as mathematical values.
pub struct IdentityView {
    pub owner: Key,
    pub did_method: Seq<char>,
    pub did_identifier: Seq<u8>,
    pub recovery_accounts: Seq<Key>,
    pub metadata_uri: Seq<char>,
    pub metadata_merkle_root: Seq<u8>,
    pub bump: u8,
    pub created_at: i64,
    pub updated_at: i64,
}

impl View for Identity {
    type V = IdentityView;

    open spec fn view(&self) -> IdentityView {
        IdentityView {
            owner: self.owner,
            did_method: self.did_method@,
            did_identifier: self.did_identifier@,
            recovery_accounts: self.recovery_accounts@,
            metadata_uri: self.metadata_uri@,
            metadata_merkle_root: self.metadata_merkle_root@,
            bump: self.bump,
            created_at: self.created_at,
            updated_at: self.updated_at,
        }
    }
}

/// An asset record that refers to its description by a metadata URI.
#[derive(Clone, Debug)]
pub struct Asset {
    /// The key that created the asset.
    pub authority: Key,
    /// The current holder.
    pub owner: Key,
    pub attestor: Option<Key>,
    pub metadata_uri: String,
    pub bump: u8,
}

/// What an asset record holds, as mathematical values.
pub struct AssetView {
    pub authority: Key,
    pub owner: Key,
    pub attestor: Option<Key>,
    pub metadata_uri: Seq<char>,
    pub bump: u8,
}

impl View for Asset {
    type V = AssetView;

    open spec fn view(&self) -> AssetView {
        AssetView {
            authority: self.authority,
            owner: self.owner,
            attestor: self.attestor,
            metadata_uri: self.metadata_uri@,
            bump: self.bump,
        }
    }
}

/// An asset record that carries an amount of a mint instead of a metadata URI.
#[derive(Clone, Copy, Debug)]
pub struct TokenAsset {
    /// The key that created the asset.
    pub issuer: Key,
    /// The current holder.
    pub owner: Key,
    pub mint: Key,
    pub amount: u64,
    pub bump: u8,
}

#[derive(Clone, Copy, Debug)]
pub struct Invoice {
    pub sender: Key,
    pub recipient: Key,
    pub amount: u64,
    pub due_at: i64,
    pub daily_penalty_rate: u8,
    pub status: InvoiceStatus,
}

#[derive(Clone, Copy, Debug)]
pub struct Loan {
    pub lender: Key,
    pub borrower: Key,
    pub amount: u64,
    pub interest_rate: u8,
    pub duration_days: u64,
    pub status: LoanStatus,
}

} // verus!
