//! The data the wallet core works on: principal identities, the per-owner
//! wallet record, and the view of a fungible-token holding.

use vstd::prelude::*;

verus! {

broadcast use vstd::array::group_array_axioms;

/// The identity of a principal or the address of an account: 32 raw bytes,
/// the form in which the host chain names every account.
#[derive(Clone, Copy, Debug)]
pub struct AccountId {
    pub bytes: [u8; 32],
}

impl View for AccountId {
    type V = Seq<u8>;

    open spec fn view(&self) -> Seq<u8> {
        self.bytes@
    }
}

impl PartialEq for AccountId {
    fn eq(&self, other: &AccountId) -> (r: bool) {
        let mut i: usize = 0;
        while i < 32
            invariant
                i <= 32,
                forall|k: int| 0 <= k < i ==> self.bytes@[k] == other.bytes@[k],
            decreases 32 - i,
        {
            if self.bytes[i] != other.bytes[i] {
                return false;
            }
            i = i + 1;
        }
        proof {
            assert(self.bytes@ =~= other.bytes@);
        }
        true
    }
}

impl vstd::std_specs::cmp::PartialEqSpecImpl for AccountId {
    open spec fn obeys_eq_spec() -> bool {
        true
    }

    open spec fn eq_spec(&self, other: &AccountId) -> bool {
        self.bytes@ == other.bytes@
    }
}

/// The persistent per-owner record. Its address is the deterministic
/// derivation from `owner` and `bump`; `transaction_count` grows by one for
/// each transfer the ledger has confirmed, and never otherwise.
#[derive(Clone, Copy, Debug, PartialEq)]
pub struct WalletAccount {
    /// Identity of the controlling principal; set once at creation.
    pub owner: AccountId,
    /// Creation timestamp; immutable.
    pub created_at: i64,
    /// Number of settled transfers initiated through this record.
    pub transaction_count: u64,
    /// Derivation tag with which the record's canonical address is
    /// re-derived from `owner`.
    pub bump: u8,
}

impl WalletAccount {
    /// Set every field of a freshly allocated record.
    pub fn initialize(&mut self, owner: AccountId, created_at: i64, bump: u8)
        ensures
            *final(self) == (WalletAccount { owner, created_at, transaction_count: 0, bump }),
    {
        self.owner = owner;
        self.created_at = created_at;
        self.transaction_count = 0;
        self.bump = bump;
    }

    /// Record one settled transfer.
    pub fn increment_transaction_count(&mut self)
        requires
            old(self).transaction_count < u64::MAX,
        ensures
            *final(self) == (WalletAccount {
                transaction_count: (old(self).transaction_count + 1) as u64,
                ..*old(self)
            }),
    {
        self.transaction_count = self.transaction_count + 1;
    }

    /// Whether `expected_owner` is the principal this record belongs to.
    pub fn validate_owner(&self, expected_owner: &AccountId) -> (r: bool)
        ensures
            r == (self.owner@ == expected_owner@),
    {
        self.owner == *expected_owner
    }
}

/// What the transfer logic reads of an external token account: its address,
/// the identifier of the asset it holds, and its balance.
#[derive(Clone, Copy, Debug)]
pub struct TokenHolding {
    /// Address of the holding itself.
    pub address: AccountId,
    /// Identifier (mint) of the asset held.
    pub mint: AccountId,
    /// Balance of the holding.
    pub amount: u64,
}

} // verus!
