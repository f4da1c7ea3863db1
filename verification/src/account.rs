//! Participant identities.
//!
//! Every party in the system — owner, subscriber, data provider, credential
//! authority, payment asset — is named by a 32-byte ledger address. The
//! library holds such an address as four 64-bit words, little-endian, word 0
//! first, so that identities compare structurally in contracts.

use vstd::prelude::*;

verus! {

/// A 32-byte ledger address, split into four little-endian 64-bit words.
#[derive(Clone, Copy, PartialEq, Eq, Structural, Debug, Hash)]
pub struct AccountId {
    pub w0: u64,
    pub w1: u64,
    pub w2: u64,
    pub w3: u64,
}

impl View for AccountId {
    type V = Seq<u64>;

    open spec fn view(&self) -> Seq<u64> {
        seq![self.w0, self.w1, self.w2, self.w3]
    }
}

impl AccountId {
    /// The all-zero address, which the ledger uses for unset identity fields.
    pub open spec fn spec_zero() -> AccountId {
        AccountId { w0: 0, w1: 0, w2: 0, w3: 0 }
    }

    /// Builds the all-zero address.
    pub fn zero() -> (r: AccountId)
        ensures
            r == AccountId::spec_zero(),
    {
        AccountId { w0: 0, w1: 0, w2: 0, w3: 0 }
    }

    /// Builds an address from its four little-endian words.
    pub fn from_words(w0: u64, w1: u64, w2: u64, w3: u64) -> (r: AccountId)
        ensures
            r == (AccountId { w0, w1, w2, w3 }),
    {
        AccountId { w0, w1, w2, w3 }
    }
}

} // verus!
