//! The two instructions the wallet program serves: wallet initialization
//! and value transfers (native and token).

mod initialize;
mod transfer;

pub use initialize::handler;
pub use initialize::InitializeWallet;
pub use initialize::WalletInitialized;
pub use transfer::all_transfers_succeed;
pub use transfer::apply_native_transfers;
pub use transfer::lemma_cross_asset_transfer_rejected;
pub use transfer::lemma_failed_delegation_mutates_nothing;
pub use transfer::lemma_insufficient_balance_mutates_nothing;
pub use transfer::lemma_transaction_count_after_n;
pub use transfer::lemma_unauthorized_transfer_mutates_nothing;
pub use transfer::native_checks;
pub use transfer::native_decision;
pub use transfer::NativeTransfer;
pub use transfer::settle_sol_transfer;
pub use transfer::settle_token_transfer;
pub use transfer::spec_settle_native;
pub use transfer::spec_settle_token;
pub use transfer::spec_transfer_native;
pub use transfer::spec_transfer_token;
pub use transfer::token_checks;
pub use transfer::token_decision;
pub use transfer::transfer_sol_handler;
pub use transfer::transfer_spl_token_handler;
pub use transfer::NativeMove;
pub use transfer::TokenMove;
pub use transfer::TokenTransferEvent;
pub use transfer::TransferEvent;
pub use transfer::TransferSPLToken;
pub use transfer::TransferSol;
