//! Verified core of an on-chain wallet: a per-owner wallet record addressed
//! by a deterministic derivation from the owner's key, an owner registry that
//! creates each record exactly once, and a transfer engine that authorizes
//! native and token transfers, delegates the value movement to the host
//! ledger, and commits the record's transaction counter only on settlement.

use vstd::prelude::*;

mod addressing;
mod errors;
mod instructions;
mod registry;
mod state;

pub use addressing::derived_address;
pub use addressing::found_address;
pub use errors::WalletError;
pub use instructions::all_transfers_succeed;
pub use instructions::apply_native_transfers;
pub use instructions::handler;
pub use instructions::lemma_cross_asset_transfer_rejected;
pub use instructions::lemma_failed_delegation_mutates_nothing;
pub use instructions::lemma_insufficient_balance_mutates_nothing;
pub use instructions::lemma_transaction_count_after_n;
pub use instructions::lemma_unauthorized_transfer_mutates_nothing;
pub use instructions::InitializeWallet;
pub use instructions::NativeTransfer;
pub use instructions::WalletInitialized;
pub use registry::create_outcome;
pub use registry::lemma_create_twice;
pub use registry::registry_contains;
pub use registry::registry_index_of;
pub use registry::registry_record;
pub use registry::registry_wf;
pub use registry::RegistryEntry;
pub use registry::WalletRegistry;
pub use instructions::native_checks;
pub use instructions::native_decision;
pub use instructions::settle_sol_transfer;
pub use instructions::settle_token_transfer;
pub use instructions::spec_settle_native;
pub use instructions::spec_settle_token;
pub use instructions::spec_transfer_native;
pub use instructions::spec_transfer_token;
pub use instructions::token_checks;
pub use instructions::token_decision;
pub use instructions::transfer_sol_handler;
pub use instructions::transfer_spl_token_handler;
pub use instructions::NativeMove;
pub use instructions::TokenMove;
pub use instructions::TokenTransferEvent;
pub use instructions::TransferEvent;
pub use instructions::TransferSPLToken;
pub use instructions::TransferSol;
pub use state::AccountId;
pub use state::TokenHolding;
pub use state::WalletAccount;

verus! {

/// Program entry point for wallet initialization; same contract as
/// `handler`, which it delegates to.
pub fn initialize_wallet(
    registry: &mut WalletRegistry,
    accounts: &InitializeWallet,
    now: i64,
) -> (r: Result<WalletInitialized, WalletError>)
    requires
        old(registry).wf(),
    ensures
        final(registry).wf(),
        final(registry).program_id == old(registry).program_id,
        r is Err ==> final(registry).entries@ == old(registry).entries@,
        r is Err ==> Err::<(), WalletError>(r->Err_0) == create_outcome(
            old(registry).entries@,
            found_address(old(registry).program_id@, accounts.owner@),
        ),
        r matches Ok(ev) ==> {
            &&& create_outcome(
                old(registry).entries@,
                found_address(old(registry).program_id@, accounts.owner@),
            ) is Ok
            &&& ev.owner == accounts.owner
            &&& ev.timestamp == now
            &&& final(registry).entries@.len() == old(registry).entries@.len() + 1
            &&& final(registry).entries@.last().address == ev.wallet
            &&& final(registry).entries@.last().account.owner == accounts.owner
            &&& final(registry).entries@.last().account.transaction_count == 0
            &&& final(registry).entries@.last().account.created_at == now
            &&& final(registry).entries@.drop_last() == old(registry).entries@
        },
{
    instructions::handler(registry, accounts, now)
}

/// Program entry point for the native-transfer decision; same contract as
/// `transfer_sol_handler`, which it delegates to.
pub fn transfer_sol(program_id: &AccountId, accounts: &TransferSol, amount: u64) -> (r: Result<
    NativeMove,
    WalletError,
>)
    ensures
        r == native_decision(program_id@, *accounts, amount),
{
    instructions::transfer_sol_handler(program_id, accounts, amount)
}

/// Program entry point for the token-transfer decision; same contract as
/// `transfer_spl_token_handler`, which it delegates to.
pub fn transfer_spl_token(
    program_id: &AccountId,
    accounts: &TransferSPLToken,
    amount: u64,
) -> (r: Result<TokenMove, WalletError>)
    ensures
        r == token_decision(program_id@, *accounts, amount),
{
    instructions::transfer_spl_token_handler(program_id, accounts, amount)
}

} // verus!
