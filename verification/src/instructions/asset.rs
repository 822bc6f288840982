use crate::errors::ErrorCode;
use crate::key::Key;
use crate::state::{Asset, AssetView, Network};
use vstd::prelude::*;

verus! {

/// The records that a request to create an asset works on, and the key that
/// signed it.
pub struct CreateAsset {
    pub network: Network,
    pub asset: Asset,
    pub payer: Key,
}

impl CreateAsset {
    /// Creates an asset that the signer issues to `owner`.
    pub fn handler(&mut self, owner: Key, bump: u8, metadata_uri: String) -> (reply: Result<
        (),
        ErrorCode,
    >)
        ensures
            reply is Ok,
            final(self).asset@ == (AssetView {
                authority: old(self).payer,
                owner,
                attestor: None,
                metadata_uri: metadata_uri@,
                bump,
            }),
            final(self).payer == old(self).payer,
            final(self).network == old(self).network,
    {
        self.asset.create(self.payer, owner, bump, metadata_uri)
    }
}

/// The record that a request to hand an asset on works on, and the key that
/// signed it.
pub struct TransferAsset {
    pub asset: Asset,
    pub payer: Key,
}

impl TransferAsset {
    /// Hands the asset to `recipient`, if the signer holds it. Who issued the
    /// asset and who attests it stay as they are.
    pub fn handler(&mut self, recipient: Key) -> (reply: Result<(), ErrorCode>)
        ensures
            old(self).payer != old(self).asset.owner ==> reply == Err::<(), ErrorCode>(
                ErrorCode::Unauthorized,
            ) && final(self).asset@ == old(self).asset@,
            old(self).payer == old(self).asset.owner ==> reply is Ok && final(self).asset@ == (
            AssetView { owner: recipient, ..old(self).asset@ }),
            final(self).payer == old(self).payer,
    {
        let payer_key = self.payer;
        let asset_owner = self.asset.owner;
        self.asset.transfer(payer_key, asset_owner, recipient)
    }
}

} // verus!
