//! The transfer engine. A transfer runs in two phases. The decision phase
//! (`transfer_sol_handler`, `transfer_spl_token_handler`) authenticates the
//! wallet record's address, the requester and the funds, and on success
//! hands back the exact movement the host must delegate to the external
//! ledger or token program; it mutates nothing. The settlement phase
//! (`settle_sol_transfer`, `settle_token_transfer`) takes the ledger's
//! outcome: on success it increments the wallet's transaction count by
//! exactly one and constructs the audit event; on failure it leaves the
//! record untouched and reports `TransactionFailed`.

use vstd::prelude::*;

use crate::addressing::derive_wallet_address;
use crate::addressing::derived_address;
use crate::errors::WalletError;
use crate::state::AccountId;
use crate::state::TokenHolding;
use crate::state::WalletAccount;

verus! {

/// The native-transfer request as the host hands it over: the wallet record
/// and its address, the signing sender, the sender's spendable native
/// balance as the ledger reports it, and the recipient.
#[derive(Clone, Copy, Debug)]
pub struct TransferSol {
    pub wallet: WalletAccount,
    pub wallet_address: AccountId,
    pub sender: AccountId,
    pub sender_balance: u64,
    pub recipient: AccountId,
}

/// The token-transfer request: the wallet record and its address, the
/// signing authority, and the source and destination holdings.
#[derive(Clone, Copy, Debug)]
pub struct TransferSPLToken {
    pub wallet: WalletAccount,
    pub wallet_address: AccountId,
    pub authority: AccountId,
    pub from_token_account: TokenHolding,
    pub to_token_account: TokenHolding,
}

/// The exact native movement the engine instructs the external ledger to
/// perform: debit `from` and credit `to` by `amount`.
#[derive(Clone, Copy, Debug, PartialEq)]
pub struct NativeMove {
    pub from: AccountId,
    pub to: AccountId,
    pub amount: u64,
}

/// The exact token movement the engine instructs the external token
/// program to perform, authorized by `authority`.
#[derive(Clone, Copy, Debug, PartialEq)]
pub struct TokenMove {
    pub from: AccountId,
    pub to: AccountId,
    pub authority: AccountId,
    pub amount: u64,
}

/// Audit record of one settled native transfer.
#[derive(Clone, Copy, Debug, PartialEq)]
pub struct TransferEvent {
    pub from: AccountId,
    pub to: AccountId,
    pub amount: u64,
    pub timestamp: i64,
}

/// Audit record of one settled token transfer, tagged with the asset
/// identifier of the source holding.
#[derive(Clone, Copy, Debug, PartialEq)]
pub struct TokenTransferEvent {
    pub from: AccountId,
    pub to: AccountId,
    pub amount: u64,
    pub mint: AccountId,
    pub timestamp: i64,
}

/// The engine's decision on an authenticated native request: the requester
/// must own the record, and the reported balance must cover the amount. A
/// zero amount is accepted by policy — a no-op movement that is still
/// counted on settlement.
pub open spec fn native_checks(
    wallet: WalletAccount,
    requester: AccountId,
    requester_balance: u64,
    recipient: AccountId,
    amount: u64,
) -> Result<NativeMove, WalletError> {
    if wallet.owner@ != requester@ {
        Err(WalletError::Unauthorized)
    } else if requester_balance < amount {
        Err(WalletError::InsufficientBalance)
    } else {
        Ok(NativeMove { from: requester, to: recipient, amount })
    }
}

/// The full decision on a native request, address authentication included:
/// the supplied record address must re-derive from the sender's key and the
/// record's stored tag.
pub open spec fn native_decision(program: Seq<u8>, accounts: TransferSol, amount: u64) -> Result<
    NativeMove,
    WalletError,
> {
    if derived_address(program, accounts.sender@, accounts.wallet.bump) != Some(
        accounts.wallet_address@,
    ) {
        Err(WalletError::AddressMismatch)
    } else {
        native_checks(
            accounts.wallet,
            accounts.sender,
            accounts.sender_balance,
            accounts.recipient,
            amount,
        )
    }
}

/// The engine's decision on an authenticated token request: ownership,
/// matching asset identifiers, and a sufficient source holding.
pub open spec fn token_checks(
    wallet: WalletAccount,
    authority: AccountId,
    source: TokenHolding,
    destination: TokenHolding,
    amount: u64,
) -> Result<TokenMove, WalletError> {
    if wallet.owner@ != authority@ {
        Err(WalletError::Unauthorized)
    } else if source.mint@ != destination.mint@ {
        Err(WalletError::InvalidRecipient)
    } else if source.amount < amount {
        Err(WalletError::InsufficientBalance)
    } else {
        Ok(TokenMove { from: source.address, to: destination.address, authority, amount })
    }
}

/// The full decision on a token request, address authentication included.
pub open spec fn token_decision(
    program: Seq<u8>,
    accounts: TransferSPLToken,
    amount: u64,
) -> Result<TokenMove, WalletError> {
    if derived_address(program, accounts.authority@, accounts.wallet.bump) != Some(
        accounts.wallet_address@,
    ) {
        Err(WalletError::AddressMismatch)
    } else {
        token_checks(
            accounts.wallet,
            accounts.authority,
            accounts.from_token_account,
            accounts.to_token_account,
            amount,
        )
    }
}

/// Settlement of a native move: with the ledger's confirmation the count
/// grows by one and the audit event exists; without it nothing changes.
pub open spec fn spec_settle_native(
    wallet: WalletAccount,
    mv: NativeMove,
    delegated_ok: bool,
    now: i64,
) -> (Result<TransferEvent, WalletError>, WalletAccount) {
    if delegated_ok {
        (
            Ok(TransferEvent { from: mv.from, to: mv.to, amount: mv.amount, timestamp: now }),
            WalletAccount { transaction_count: (wallet.transaction_count + 1) as u64, ..wallet },
        )
    } else {
        (Err(WalletError::TransactionFailed), wallet)
    }
}

/// Settlement of a token move; the event carries the asset identifier.
pub open spec fn spec_settle_token(
    wallet: WalletAccount,
    mv: TokenMove,
    mint: AccountId,
    delegated_ok: bool,
    now: i64,
) -> (Result<TokenTransferEvent, WalletError>, WalletAccount) {
    if delegated_ok {
        (
            Ok(
                TokenTransferEvent {
                    from: mv.from,
                    to: mv.to,
                    amount: mv.amount,
                    mint,
                    timestamp: now,
                },
            ),
            WalletAccount { transaction_count: (wallet.transaction_count + 1) as u64, ..wallet },
        )
    } else {
        (Err(WalletError::TransactionFailed), wallet)
    }
}

/// One whole native transfer as the host runs it: decide, and only if the
/// decision allows it delegate the move and settle on the ledger's outcome.
/// The third component is the movement handed to the ledger, `None` where
/// the instruction aborted before delegating anything.
pub open spec fn spec_transfer_native(
    wallet: WalletAccount,
    requester: AccountId,
    requester_balance: u64,
    recipient: AccountId,
    amount: u64,
    ledger_ok: bool,
    now: i64,
) -> (Result<TransferEvent, WalletError>, WalletAccount, Option<NativeMove>) {
    match native_checks(wallet, requester, requester_balance, recipient, amount) {
        Err(e) => (Err(e), wallet, None),
        Ok(mv) => (
            spec_settle_native(wallet, mv, ledger_ok, now).0,
            spec_settle_native(wallet, mv, ledger_ok, now).1,
            Some(mv),
        ),
    }
}

/// One whole token transfer, as `spec_transfer_native` but over holdings.
pub open spec fn spec_transfer_token(
    wallet: WalletAccount,
    requester: AccountId,
    source: TokenHolding,
    destination: TokenHolding,
    amount: u64,
    ledger_ok: bool,
    now: i64,
) -> (Result<TokenTransferEvent, WalletError>, WalletAccount, Option<TokenMove>) {
    match token_checks(wallet, requester, source, destination, amount) {
        Err(e) => (Err(e), wallet, None),
        Ok(mv) => (
            spec_settle_token(wallet, mv, source.mint, ledger_ok, now).0,
            spec_settle_token(wallet, mv, source.mint, ledger_ok, now).1,
            Some(mv),
        ),
    }
}

/// Decision phase of a native transfer. Read-only: it either rejects the
/// request or returns the exact movement to delegate to the ledger.
pub fn transfer_sol_handler(
    program_id: &AccountId,
    accounts: &TransferSol,
    amount: u64,
) -> (r: Result<NativeMove, WalletError>)
    ensures
        r == native_decision(program_id@, *accounts, amount),
{
    let derived = derive_wallet_address(program_id, &accounts.sender, accounts.wallet.bump);
    let address_ok = match derived {
        Some(a) => a == accounts.wallet_address,
        None => false,
    };
    if !address_ok {
        return Err(WalletError::AddressMismatch);
    }
    if !accounts.wallet.validate_owner(&accounts.sender) {
        return Err(WalletError::Unauthorized);
    }
    if accounts.sender_balance < amount {
        return Err(WalletError::InsufficientBalance);
    }
    Ok(NativeMove { from: accounts.sender, to: accounts.recipient, amount })
}

/// Settlement phase of a native transfer: commit the counter and construct
/// the audit event exactly when the ledger confirmed the move.
pub fn settle_sol_transfer(
    wallet: &mut WalletAccount,
    mv: &NativeMove,
    delegated_ok: bool,
    now: i64,
) -> (r: Result<TransferEvent, WalletError>)
    requires
        old(wallet).transaction_count < u64::MAX,
    ensures
        r == spec_settle_native(*old(wallet), *mv, delegated_ok, now).0,
        *final(wallet) == spec_settle_native(*old(wallet), *mv, delegated_ok, now).1,
{
    if !delegated_ok {
        return Err(WalletError::TransactionFailed);
    }
    wallet.increment_transaction_count();
    Ok(TransferEvent { from: mv.from, to: mv.to, amount: mv.amount, timestamp: now })
}

/// Decision phase of a token transfer. Read-only: it either rejects the
/// request or returns the exact movement to delegate to the token program.
pub fn transfer_spl_token_handler(
    program_id: &AccountId,
    accounts: &TransferSPLToken,
    amount: u64,
) -> (r: Result<TokenMove, WalletError>)
    ensures
        r == token_decision(program_id@, *accounts, amount),
{
    let derived = derive_wallet_address(program_id, &accounts.authority, accounts.wallet.bump);
    let address_ok = match derived {
        Some(a) => a == accounts.wallet_address,
        None => false,
    };
    if !address_ok {
        return Err(WalletError::AddressMismatch);
    }
    if !accounts.wallet.validate_owner(&accounts.authority) {
        return Err(WalletError::Unauthorized);
    }
    if !(accounts.from_token_account.mint == accounts.to_token_account.mint) {
        return Err(WalletError::InvalidRecipient);
    }
    if accounts.from_token_account.amount < amount {
        return Err(WalletError::InsufficientBalance);
    }
    Ok(
        TokenMove {
            from: accounts.from_token_account.address,
            to: accounts.to_token_account.address,
            authority: accounts.authority,
            amount,
        },
    )
}

/// Settlement phase of a token transfer; `mint` is the asset identifier of
/// the source holding, recorded in the audit event.
pub fn settle_token_transfer(
    wallet: &mut WalletAccount,
    mv: &TokenMove,
    mint: &AccountId,
    delegated_ok: bool,
    now: i64,
) -> (r: Result<TokenTransferEvent, WalletError>)
    requires
        old(wallet).transaction_count < u64::MAX,
    ensures
        r == spec_settle_token(*old(wallet), *mv, *mint, delegated_ok, now).0,
        *final(wallet) == spec_settle_token(*old(wallet), *mv, *mint, delegated_ok, now).1,
{
    if !delegated_ok {
        return Err(WalletError::TransactionFailed);
    }
    wallet.increment_transaction_count();
    Ok(
        TokenTransferEvent {
            from: mv.from,
            to: mv.to,
            amount: mv.amount,
            mint: *mint,
            timestamp: now,
        },
    )
}

/// One native transfer attempt against a wallet, as a value: the requester
/// with the balance the ledger reports for it, the recipient, the amount,
/// and the settlement timestamp.
#[derive(Clone, Copy, Debug)]
pub struct NativeTransfer {
    pub requester: AccountId,
    pub requester_balance: u64,
    pub recipient: AccountId,
    pub amount: u64,
    pub now: i64,
}

/// The wallet record after running the given transfers in order, each one
/// confirmed by the ledger.
pub open spec fn apply_native_transfers(wallet: WalletAccount, steps: Seq<NativeTransfer>) -> WalletAccount
    decreases steps.len(),
{
    if steps.len() == 0 {
        wallet
    } else {
        let first = steps[0];
        apply_native_transfers(
            spec_transfer_native(
                wallet,
                first.requester,
                first.requester_balance,
                first.recipient,
                first.amount,
                true,
                first.now,
            ).1,
            steps.drop_first(),
        )
    }
}

/// Whether every one of the given transfers, run in order with the ledger
/// confirming each, succeeds.
pub open spec fn all_transfers_succeed(wallet: WalletAccount, steps: Seq<NativeTransfer>) -> bool
    decreases steps.len(),
{
    steps.len() == 0 || {
        let first = steps[0];
        &&& spec_transfer_native(
            wallet,
            first.requester,
            first.requester_balance,
            first.recipient,
            first.amount,
            true,
            first.now,
        ).0 is Ok
        &&& all_transfers_succeed(
            spec_transfer_native(
                wallet,
                first.requester,
                first.requester_balance,
                first.recipient,
                first.amount,
                true,
                first.now,
            ).1,
            steps.drop_first(),
        )
    }
}

/// Law: after N successful native transfers from the same wallet the
/// transaction count has grown by exactly N, whatever the transfer
/// amounts. The bound keeps the counter within its machine type; a
/// transfer that would push it past `u64::MAX` does not settle.
pub proof fn lemma_transaction_count_after_n(wallet: WalletAccount, steps: Seq<NativeTransfer>)
    requires
        all_transfers_succeed(wallet, steps),
        wallet.transaction_count + steps.len() <= u64::MAX,
    ensures
        apply_native_transfers(wallet, steps).transaction_count == wallet.transaction_count
            + steps.len(),
    decreases steps.len(),
{
    if steps.len() != 0 {
        let first = steps[0];
        let next = spec_transfer_native(
            wallet,
            first.requester,
            first.requester_balance,
            first.recipient,
            first.amount,
            true,
            first.now,
        ).1;
        assert(next.transaction_count == wallet.transaction_count + 1);
        lemma_transaction_count_after_n(next, steps.drop_first());
    }
}

/// Law: a requester who is not the record's owner is turned away with
/// `Unauthorized`, whichever kind of transfer it attempts; the wallet
/// record keeps its value and nothing is handed to the ledger or the token
/// program, so no balance moves either.
pub proof fn lemma_unauthorized_transfer_mutates_nothing(
    wallet: WalletAccount,
    requester: AccountId,
    requester_balance: u64,
    recipient: AccountId,
    source: TokenHolding,
    destination: TokenHolding,
    amount: u64,
    ledger_ok: bool,
    now: i64,
)
    requires
        requester@ != wallet.owner@,
    ensures
        spec_transfer_native(wallet, requester, requester_balance, recipient, amount, ledger_ok, now)
            == (Err::<TransferEvent, WalletError>(WalletError::Unauthorized), wallet, None::<NativeMove>),
        spec_transfer_token(wallet, requester, source, destination, amount, ledger_ok, now)
            == (Err::<TokenTransferEvent, WalletError>(WalletError::Unauthorized), wallet, None::<TokenMove>),
{
}

/// Law: a native transfer of more than the requester's balance fails with
/// `InsufficientBalance`; the transaction count keeps its value and
/// nothing is handed to the ledger, so both balances stay as they were.
pub proof fn lemma_insufficient_balance_mutates_nothing(
    wallet: WalletAccount,
    requester: AccountId,
    requester_balance: u64,
    recipient: AccountId,
    amount: u64,
    ledger_ok: bool,
    now: i64,
)
    requires
        requester@ == wallet.owner@,
        amount > requester_balance,
    ensures
        spec_transfer_native(wallet, requester, requester_balance, recipient, amount, ledger_ok, now)
            == (Err::<TransferEvent, WalletError>(WalletError::InsufficientBalance), wallet, None::<NativeMove>),
{
}

/// Law: a token transfer between holdings of different asset identifiers
/// fails with `InvalidRecipient`; the wallet record keeps its value and
/// nothing is handed to the token program, so both holdings stay as they
/// were.
pub proof fn lemma_cross_asset_transfer_rejected(
    wallet: WalletAccount,
    requester: AccountId,
    source: TokenHolding,
    destination: TokenHolding,
    amount: u64,
    ledger_ok: bool,
    now: i64,
)
    requires
        requester@ == wallet.owner@,
        source.mint@ != destination.mint@,
    ensures
        spec_transfer_token(wallet, requester, source, destination, amount, ledger_ok, now)
            == (Err::<TokenTransferEvent, WalletError>(WalletError::InvalidRecipient), wallet, None::<TokenMove>),
{
}

/// Law: a transfer whose delegated ledger move fails reports
/// `TransactionFailed` and leaves the wallet record — the transaction
/// count in particular — exactly as it was, and yields no audit event.
pub proof fn lemma_failed_delegation_mutates_nothing(
    wallet: WalletAccount,
    requester: AccountId,
    requester_balance: u64,
    recipient: AccountId,
    amount: u64,
    now: i64,
)
    requires
        native_checks(wallet, requester, requester_balance, recipient, amount) is Ok,
    ensures
        spec_transfer_native(wallet, requester, requester_balance, recipient, amount, false, now).0
            == Err::<TransferEvent, WalletError>(WalletError::TransactionFailed),
        spec_transfer_native(wallet, requester, requester_balance, recipient, amount, false, now).1
            == wallet,
{
}

} // verus!
