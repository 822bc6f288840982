use crate::errors::ErrorCode;
use crate::key::Key;
use crate::state::{Asset, AssetView, TokenAsset};
use vstd::prelude::*;

verus! {

impl Asset {
    /// Fills the record for a new asset that `authority` issues to `owner`.
    /// A new asset has no attestor.
    pub fn create(&mut self, authority: Key, owner: Key, bump: u8, metadata_uri: String) -> (reply:
        Result<(), ErrorCode>)
        ensures
            reply is Ok,
            final(self)@ == (AssetView {
                authority,
                owner,
                attestor: None,
                metadata_uri: metadata_uri@,
                bump,
            }),
    {
        self.authority = authority;
        self.owner = owner;
        self.attestor = None;
        self.bump = bump;
        self.metadata_uri = metadata_uri;
        Ok(())
    }

    /// Hands the asset to `recipient` on behalf of `payer`. `asset_owner` is
    /// the holder as the caller read it from the record. Only the holder may
    /// hand the asset on, so `payer` must be both that key and the holder on
    /// record.
    pub fn transfer(&mut self, payer: Key, asset_owner: Key, recipient: Key) -> (reply: Result<
        (),
        ErrorCode,
    >)
        ensures
            payer != asset_owner || payer != old(self).owner ==> reply == Err::<(), ErrorCode>(
                ErrorCode::Unauthorized,
            ) && final(self)@ == old(self)@,
            payer == asset_owner && payer == old(self).owner ==> reply is Ok && final(self)@ == (
            AssetView { owner: recipient, ..old(self)@ }),
    {
        if payer != asset_owner || payer != self.owner {
            return Err(ErrorCode::Unauthorized);
        }
        self.owner = recipient;
        Ok(())
    }

    /// Records `new_attestor` as the asset's attestor, whoever asks.
    pub fn attest(&mut self, new_attestor: Key) -> (reply: Result<(), ErrorCode>)
        ensures
            reply is Ok,
            final(self)@ == (AssetView { attestor: Some(new_attestor), ..old(self)@ }),
    {
        self.attestor = Some(new_attestor);
        Ok(())
    }

    /// Revokes the asset: from now on nobody holds it. The amount plays no
    /// part.
    pub fn burn(&mut self, _amount: u64) -> (reply: Result<(), ErrorCode>)
        ensures
            reply is Ok,
            final(self)@ == (AssetView { owner: Key::null(), ..old(self)@ }),
    {
        self.owner = Key::default();
        Ok(())
    }
}

impl TokenAsset {
    /// Fills the record for a new asset of `amount` units of `mint` that
    /// `issuer` issues to `owner`.
    pub fn create(&mut self, issuer: Key, owner: Key, mint: Key, amount: u64, bump: u8) -> (reply:
        Result<(), ErrorCode>)
        ensures
            reply is Ok,
            *final(self) == (TokenAsset { issuer, owner, mint, amount, bump }),
    {
        self.issuer = issuer;
        self.owner = owner;
        self.mint = mint;
        self.amount = amount;
        self.bump = bump;
        Ok(())
    }

    /// Adds `amount` units to the asset.
    pub fn mint(&mut self, amount: u64) -> (reply: Result<(), ErrorCode>)
        requires
            old(self).amount + amount <= u64::MAX,
        ensures
            reply is Ok,
            *final(self) == (TokenAsset { amount: (old(self).amount + amount) as u64, ..*old(self) }),
    {
        self.amount = self.amount + amount;
        Ok(())
    }

    /// Takes `amount` units off the asset, if it holds that many.
    pub fn burn(&mut self, amount: u64) -> (reply: Result<(), ErrorCode>)
        ensures
            amount > old(self).amount ==> reply == Err::<(), ErrorCode>(ErrorCode::AmountNotEnough)
                && *final(self) == *old(self),
            amount <= old(self).amount ==> reply is Ok && *final(self) == (TokenAsset {
                amount: (old(self).amount - amount) as u64,
                ..*old(self)
            }),
    {
        if amount > self.amount {
            return Err(ErrorCode::AmountNotEnough);
        }
        self.amount = self.amount - amount;
        Ok(())
    }
}

} // verus!
