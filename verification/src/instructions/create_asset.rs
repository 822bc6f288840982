use crate::errors::ErrorCode;
use crate::key::Key;
use crate::state::TokenAsset;
use vstd::prelude::*;

verus! {

/// The record that a request to create an asset with an amount works on, and
/// the key that signed it.
pub struct CreateAsset {
    pub asset: TokenAsset,
    pub payer: Key,
}

impl CreateAsset {
    /// Creates an asset of `amount` units of `mint` that `issuer` issues to
    /// `owner`.
    pub fn handler(&mut self, issuer: Key, owner: Key, mint: Key, amount: u64, bump: u8) -> (reply:
        Result<(), ErrorCode>)
        ensures
            reply is Ok,
            final(self).asset == (TokenAsset { issuer, owner, mint, amount, bump }),
            final(self).payer == old(self).payer,
    {
        self.asset.create(issuer, owner, mint, amount, bump)
    }
}

} // verus!
