use crate::errors::ErrorCode;
use crate::key::Key;
use crate::state::Network;
use vstd::prelude::*;

verus! {

/// The record that a request to set the registry up works on, and the key
/// that signed it.
pub struct Init {
    pub network: Network,
    pub payer: Key,
}

impl Init {
    /// Makes the signer the registry's administrator and starts the count of
    /// identities at zero.
    pub fn handler(&mut self) -> (reply: Result<(), ErrorCode>)
        ensures
            reply is Ok,
            final(self).network == (Network { admin: old(self).payer, total_identities: 0 }),
            final(self).payer == old(self).payer,
    {
        self.network.admin = self.payer;
        self.network.total_identities = 0;
        Ok(())
    }
}

} // verus!
