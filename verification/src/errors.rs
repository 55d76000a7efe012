//! Error taxonomy of the wallet core. Every error is terminal for the
//! current instruction: no partial state mutation is observable after one.

use vstd::prelude::*;

verus! {

/// Why a wallet instruction was rejected.
#[derive(Clone, Copy, Debug, PartialEq, Eq, Structural)]
pub enum WalletError {
    /// The requested amount exceeds the available funds or holding.
    InsufficientBalance,
    /// The caller is not the owner of the wallet record.
    Unauthorized,
    /// The destination is malformed or holds a different asset.
    InvalidRecipient,
    /// The delegated ledger or token movement itself failed.
    TransactionFailed,
    /// A wallet record already exists at the owner's derived address.
    AlreadyExists,
    /// The derived address does not match the supplied record address.
    AddressMismatch,
}

} // verus!
