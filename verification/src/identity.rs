//! Identities: the parties to a deal, the deals themselves, and the accounts
//! that hold funds. The library never authenticates anyone; it only compares
//! identities that its caller has already authenticated.

use vstd::prelude::*;
use vstd::std_specs::cmp::PartialEqSpecImpl;

verus! {

/// The identity of a party: thirty-two bytes, compared byte for byte.
#[derive(Clone, Copy, Debug)]
pub struct Pubkey {
    pub bytes: [u8; 32],
}

impl Pubkey {
    /// The identity made of the given bytes.
    pub fn new(bytes: [u8; 32]) -> (key: Pubkey)
        ensures
            key.bytes == bytes,
    {
        Pubkey { bytes }
    }

    /// The bytes of this identity.
    pub fn to_bytes(&self) -> (bytes: [u8; 32])
        ensures
            bytes == self.bytes,
    {
        self.bytes
    }
}

impl PartialEq for Pubkey {
    fn eq(&self, other: &Pubkey) -> (same: bool) {
        let mut i: usize = 0;
        while i < 32
            invariant
                i <= 32,
                forall|j: int| 0 <= j < i ==> self.bytes@[j] == other.bytes@[j],
            decreases 32 - i,
        {
            if self.bytes[i] != other.bytes[i] {
                return false;
            }
            i = i + 1;
        }
        assert(self.bytes =~= other.bytes);
        true
    }
}

impl PartialEqSpecImpl for Pubkey {
    open spec fn obeys_eq_spec() -> bool {
        true
    }

    open spec fn eq_spec(&self, other: &Pubkey) -> bool {
        *self == *other
    }
}

impl Eq for Pubkey {

}

/// The identifier of a deal: the registry that issued it and its place in
/// that registry's sequence. Two deals never share an identifier, because a
/// registry hands out each sequence number once.
#[derive(Clone, Copy, Debug)]
pub struct DealId {
    pub platform: Pubkey,
    pub sequence: u64,
}

impl PartialEq for DealId {
    fn eq(&self, other: &DealId) -> (same: bool) {
        self.sequence == other.sequence && self.platform == other.platform
    }
}

impl PartialEqSpecImpl for DealId {
    open spec fn obeys_eq_spec() -> bool {
        true
    }

    open spec fn eq_spec(&self, other: &DealId) -> bool {
        *self == *other
    }
}

impl Eq for DealId {

}

/// An account on the ledger: either the wallet of a party, or the custody
/// vault that belongs to one deal.
#[derive(Clone, Copy, Debug)]
pub enum AccountId {
    Wallet(Pubkey),
    Vault(DealId),
}

impl PartialEq for AccountId {
    fn eq(&self, other: &AccountId) -> (same: bool) {
        match (self, other) {
            (AccountId::Wallet(a), AccountId::Wallet(b)) => *a == *b,
            (AccountId::Vault(a), AccountId::Vault(b)) => *a == *b,
            _ => false,
        }
    }
}

impl PartialEqSpecImpl for AccountId {
    open spec fn obeys_eq_spec() -> bool {
        true
    }

    open spec fn eq_spec(&self, other: &AccountId) -> bool {
        *self == *other
    }
}

impl Eq for AccountId {

}

} // verus!
