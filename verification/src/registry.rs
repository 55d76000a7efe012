//! The owner registry: the wallet records the host stores for this
//! program, each at the address deterministically derived from its owner's
//! key and a derivation tag. A record is created exactly once; an attempt
//! to create a second record for the same owner derives the same address
//! and is rejected with `AlreadyExists`.

use vstd::prelude::*;

use crate::addressing::derive_wallet_address;
use crate::addressing::derived_address;
use crate::addressing::find_wallet_address;
use crate::addressing::found_address;
use crate::errors::WalletError;
use crate::instructions::WalletInitialized;
use crate::state::AccountId;
use crate::state::WalletAccount;

verus! {

/// One stored record: a wallet account at its derived address.
#[derive(Clone, Copy, Debug)]
pub struct RegistryEntry {
    pub address: AccountId,
    pub account: WalletAccount,
}

/// Whether some stored entry lives at `address`.
pub open spec fn registry_contains(s: Seq<RegistryEntry>, address: Seq<u8>) -> bool {
    exists|i: int| 0 <= i < s.len() && s[i].address@ == address
}

/// The position of the entry at `address`; meaningful under
/// `registry_wf`, which makes it unique.
pub open spec fn registry_index_of(s: Seq<RegistryEntry>, address: Seq<u8>) -> int {
    choose|i: int| 0 <= i < s.len() && s[i].address@ == address
}

/// The record stored at `address`.
pub open spec fn registry_record(s: Seq<RegistryEntry>, address: Seq<u8>) -> WalletAccount {
    s[registry_index_of(s, address)].account
}

/// Well-formedness: no two entries share an address, so each owner
/// validates against at most one record.
pub open spec fn registry_wf(s: Seq<RegistryEntry>) -> bool {
    forall|i: int, j: int| 0 <= i < j < s.len() ==> s[i].address@ != s[j].address@
}

/// What a creation attempt answers, given the stored entries and the
/// outcome of the address search for the owner.
pub open spec fn create_outcome(s: Seq<RegistryEntry>, fa: Option<(Seq<u8>, u8)>) -> Result<
    (),
    WalletError,
> {
    match fa {
        None => Err(WalletError::AddressMismatch),
        Some(pair) => if registry_contains(s, pair.0) {
            Err(WalletError::AlreadyExists)
        } else {
            Ok(())
        },
    }
}

/// The wallet records of one program instance.
pub struct WalletRegistry {
    pub program_id: AccountId,
    pub entries: Vec<RegistryEntry>,
}

impl WalletRegistry {
    /// No two stored entries share an address.
    pub open spec fn wf(&self) -> bool {
        registry_wf(self.entries@)
    }

    /// An empty registry for the program identified by `program_id`.
    pub fn new(program_id: AccountId) -> (r: WalletRegistry)
        ensures
            r.program_id == program_id,
            r.entries@.len() == 0,
            r.wf(),
    {
        WalletRegistry { program_id, entries: Vec::new() }
    }

    /// The position of the entry stored at `address`, if any.
    fn index_of(&self, address: &AccountId) -> (r: Option<usize>)
        ensures
            match r {
                Some(i) => 0 <= i < self.entries@.len() && self.entries@[i as int].address@
                    == address@,
                None => !registry_contains(self.entries@, address@),
            },
    {
        let mut i: usize = 0;
        while i < self.entries.len()
            invariant
                i <= self.entries@.len(),
                forall|k: int| 0 <= k < i ==> self.entries@[k].address@ != address@,
            decreases self.entries@.len() - i,
        {
            if self.entries[i].address == *address {
                return Some(i);
            }
            i = i + 1;
        }
        None
    }

    /// Create the wallet record for `owner`, timestamped `now`. The record
    /// is stored at the address found for `owner` with its derivation tag
    /// and starts with `transaction_count == 0`; a record already stored at
    /// that address is left alone and the call fails with `AlreadyExists`.
    /// Where no address can be derived for `owner` at all, the call fails
    /// with `AddressMismatch`. On success the returned `WalletInitialized`
    /// event names the owner, the new record's address and the timestamp.
    pub fn create(&mut self, owner: &AccountId, now: i64) -> (r: Result<
        WalletInitialized,
        WalletError,
    >)
        requires
            old(self).wf(),
        ensures
            final(self).wf(),
            final(self).program_id == old(self).program_id,
            r is Err ==> final(self).entries@ == old(self).entries@,
            (match r {
                Err(e) => Err::<(), WalletError>(e) == create_outcome(
                    old(self).entries@,
                    found_address(old(self).program_id@, owner@),
                ),
                Ok(ev) => {
                    &&& create_outcome(
                        old(self).entries@,
                        found_address(old(self).program_id@, owner@),
                    ) is Ok
                    &&& found_address(old(self).program_id@, owner@) matches Some(pair)
                        && ev.wallet@ == pair.0
                    &&& ev.owner == *owner
                    &&& ev.timestamp == now
                    &&& final(self).entries@ == old(self).entries@.push(
                        RegistryEntry {
                            address: ev.wallet,
                            account: WalletAccount {
                                owner: *owner,
                                created_at: now,
                                transaction_count: 0,
                                bump: found_address(
                                    old(self).program_id@,
                                    owner@,
                                )->Some_0.1,
                            },
                        },
                    )
                },
            }),
    {
        let found = find_wallet_address(&self.program_id, owner);
        let (address, bump) = match found {
            None => {
                return Err(WalletError::AddressMismatch);
            },
            Some(pair) => pair,
        };
        if let Some(_i) = self.index_of(&address) {
            return Err(WalletError::AlreadyExists);
        }
        let account = WalletAccount {
            owner: *owner,
            created_at: now,
            transaction_count: 0,
            bump,
        };
        let ghost old_entries = self.entries@;
        self.entries.push(RegistryEntry { address, account });
        proof {
            assert forall|i: int, j: int|
                0 <= i < j < self.entries@.len() implies self.entries@[i].address@
                != self.entries@[j].address@ by {
                if j == self.entries@.len() - 1 {
                    assert(!registry_contains(old_entries, address@));
                    assert(self.entries@[i] == old_entries[i]);
                }
            }
        }
        Ok(WalletInitialized { owner: *owner, wallet: address, timestamp: now })
    }

    /// Re-derive the canonical address from `claimed_owner` and
    /// `supplied_tag` and hand back the stored record only where the
    /// derivation lands exactly on `record_address` and a record is stored
    /// there; any other outcome is an `AddressMismatch`. This is the defence
    /// against a caller naming an unrelated record alongside a foreign
    /// owner.
    pub fn resolve_and_authenticate(
        &self,
        claimed_owner: &AccountId,
        supplied_tag: u8,
        record_address: &AccountId,
    ) -> (r: Result<WalletAccount, WalletError>)
        requires
            self.wf(),
        ensures
            (match derived_address(self.program_id@, claimed_owner@, supplied_tag) {
                Some(a) => if a == record_address@ && registry_contains(self.entries@, a) {
                    r == Ok::<WalletAccount, WalletError>(registry_record(self.entries@, a))
                } else {
                    r == Err::<WalletAccount, WalletError>(WalletError::AddressMismatch)
                },
                None => r == Err::<WalletAccount, WalletError>(WalletError::AddressMismatch),
            }),
    {
        let derived = derive_wallet_address(&self.program_id, claimed_owner, supplied_tag);
        let address = match derived {
            None => {
                return Err(WalletError::AddressMismatch);
            },
            Some(a) => a,
        };
        if !(address == *record_address) {
            return Err(WalletError::AddressMismatch);
        }
        match self.index_of(&address) {
            None => Err(WalletError::AddressMismatch),
            Some(i) => {
                proof {
                    lemma_record_at_index(self.entries@, i as int, address@);
                }
                Ok(self.entries[i].account)
            },
        }
    }

    /// The record stored at `address`, if any.
    pub fn get(&self, address: &AccountId) -> (r: Option<WalletAccount>)
        requires
            self.wf(),
        ensures
            match r {
                Some(w) => registry_contains(self.entries@, address@) && w == registry_record(
                    self.entries@,
                    address@,
                ),
                None => !registry_contains(self.entries@, address@),
            },
    {
        match self.index_of(address) {
            None => None,
            Some(i) => {
                proof {
                    lemma_record_at_index(self.entries@, i as int, address@);
                }
                Some(self.entries[i].account)
            },
        }
    }
}

/// Under well-formedness the entry found at a position is the entry the
/// registry stores for that address.
proof fn lemma_record_at_index(s: Seq<RegistryEntry>, i: int, address: Seq<u8>)
    requires
        registry_wf(s),
        0 <= i < s.len(),
        s[i].address@ == address,
    ensures
        registry_contains(s, address),
        registry_record(s, address) == s[i].account,
{
    assert(registry_contains(s, address));
    let j = registry_index_of(s, address);
    assert(0 <= j < s.len() && s[j].address@ == address);
    if i != j {
        if i < j {
            assert(s[i].address@ != s[j].address@);
        } else {
            assert(s[j].address@ != s[i].address@);
        }
    }
}

/// Creation is not idempotent: once a record has been stored at an owner's
/// derived address, a second creation attempt for the same owner — which
/// finds the same address, the search being a function of the program and
/// the owner alone — answers `AlreadyExists`.
pub proof fn lemma_create_twice(s: Seq<RegistryEntry>, entry: RegistryEntry, fa: Option<(Seq<u8>, u8)>)
    requires
        fa matches Some(pair) && pair.0 == entry.address@,
    ensures
        create_outcome(s.push(entry), fa) == Err::<(), WalletError>(WalletError::AlreadyExists),
{
    assert(s.push(entry)[s.len() as int] == entry);
    assert(registry_contains(s.push(entry), entry.address@));
}

} // verus!
