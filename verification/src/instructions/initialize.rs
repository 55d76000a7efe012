//! Wallet initialization: create the owner's record exactly once, at the
//! owner's derived address, and construct the initialization audit event.

use vstd::prelude::*;

use crate::errors::WalletError;
use crate::registry::create_outcome;
use crate::registry::WalletRegistry;
use crate::addressing::found_address;
use crate::state::AccountId;

verus! {

/// The initialization request as the host hands it over: the signing
/// owner. The record itself is allocated by the registry.
#[derive(Clone, Copy, Debug)]
pub struct InitializeWallet {
    pub owner: AccountId,
}

/// Audit record of one wallet creation.
#[derive(Clone, Copy, Debug, PartialEq)]
pub struct WalletInitialized {
    pub owner: AccountId,
    pub wallet: AccountId,
    pub timestamp: i64,
}

/// Create the wallet record for the request's owner, timestamped `now`.
/// Same contract as `WalletRegistry::create`, which it delegates to.
pub fn handler(registry: &mut WalletRegistry, accounts: &InitializeWallet, now: i64) -> (r:
    Result<WalletInitialized, WalletError>)
    requires
        old(registry).wf(),
    ensures
        final(registry).wf(),
        final(registry).program_id == old(registry).program_id,
        r is Err ==> final(registry).entries@ == old(registry).entries@,
        r is Err ==> Err::<(), WalletError>(r->Err_0) == create_outcome(
            old(registry).entries@,
            found_address(old(registry).program_id@, accounts.owner@),
        ),
        r matches Ok(ev) ==> {
            &&& create_outcome(
                old(registry).entries@,
                found_address(old(registry).program_id@, accounts.owner@),
            ) is Ok
            &&& ev.owner == accounts.owner
            &&& ev.timestamp == now
            &&& final(registry).entries@.len() == old(registry).entries@.len() + 1
            &&& final(registry).entries@.last().address == ev.wallet
            &&& final(registry).entries@.last().account.owner == accounts.owner
            &&& final(registry).entries@.last().account.transaction_count == 0
            &&& final(registry).entries@.last().account.created_at == now
            &&& final(registry).entries@.drop_last() == old(registry).entries@
        },
{
    registry.create(&accounts.owner, now)
}

} // verus!
