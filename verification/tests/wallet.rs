use wallet_program::AccountId;
use wallet_program::NativeMove;
use wallet_program::TokenHolding;
use wallet_program::TokenMove;
use wallet_program::TransferSPLToken;
use wallet_program::TransferSol;
use wallet_program::WalletAccount;
use wallet_program::WalletError;
use wallet_program::WalletRegistry;

fn id(tag: u8) -> AccountId {
    AccountId { bytes: [tag; 32] }
}

const NOW: i64 = 1_700_000_000;

#[test]
fn create_stores_a_fresh_record() {
    let mut registry = WalletRegistry::new(id(9));
    let owner = id(1);
    let ev = registry.create(&owner, NOW).expect("first creation succeeds");
    assert_eq!(ev.owner, owner);
    assert_eq!(ev.timestamp, NOW);
    let record = registry.get(&ev.wallet).expect("record stored at event address");
    assert_eq!(record.owner, owner);
    assert_eq!(record.created_at, NOW);
    assert_eq!(record.transaction_count, 0);
}

#[test]
fn create_twice_yields_already_exists() {
    let mut registry = WalletRegistry::new(id(9));
    let owner = id(1);
    registry.create(&owner, NOW).expect("first creation succeeds");
    let second = registry.create(&owner, NOW + 5);
    assert_eq!(second, Err(WalletError::AlreadyExists));
    // Another owner is unaffected by the first record.
    assert!(registry.create(&id(2), NOW).is_ok());
}

#[test]
fn derived_address_is_not_the_owner_key() {
    // The stored address comes out of the host's hash derivation, not out
    // of the owner's key unchanged.
    let mut registry = WalletRegistry::new(id(9));
    let owner = id(1);
    let ev = registry.create(&owner, NOW).expect("creation succeeds");
    assert_ne!(ev.wallet, owner);
    assert_ne!(ev.wallet, id(9));
}

#[test]
fn resolve_accepts_the_owner_and_rejects_strangers() {
    let mut registry = WalletRegistry::new(id(9));
    let owner = id(1);
    let ev = registry.create(&owner, NOW).expect("creation succeeds");
    let record = registry.get(&ev.wallet).expect("record stored");

    let resolved = registry.resolve_and_authenticate(&owner, record.bump, &ev.wallet);
    assert_eq!(resolved, Ok(record));

    let stranger = registry.resolve_and_authenticate(&id(2), record.bump, &ev.wallet);
    assert_eq!(stranger, Err(WalletError::AddressMismatch));

    let wrong_tag = registry.resolve_and_authenticate(&owner, record.bump.wrapping_add(1), &ev.wallet);
    assert_eq!(wrong_tag, Err(WalletError::AddressMismatch));
}

/// Create a wallet for `owner` and hand back the registry, the record and
/// its address.
fn wallet_for(owner: AccountId) -> (WalletRegistry, WalletAccount, AccountId) {
    let mut registry = WalletRegistry::new(id(9));
    let ev = registry.create(&owner, NOW).expect("creation succeeds");
    let record = registry.get(&ev.wallet).expect("record stored");
    (registry, record, ev.wallet)
}

#[test]
fn native_transfer_settles_and_counts() {
    let owner = id(1);
    let recipient = id(2);
    let (registry, record, wallet_address) = wallet_for(owner);
    let accounts = TransferSol {
        wallet: record,
        wallet_address,
        sender: owner,
        sender_balance: 1_000,
        recipient,
    };
    let mv = wallet_program::transfer_sol_handler(&registry.program_id, &accounts, 100)
        .expect("decision allows the transfer");
    assert_eq!(mv, NativeMove { from: owner, to: recipient, amount: 100 });

    let mut wallet = record;
    let event = wallet_program::settle_sol_transfer(&mut wallet, &mv, true, NOW + 1)
        .expect("confirmed move settles");
    assert_eq!(wallet.transaction_count, 1);
    assert_eq!(event.from, owner);
    assert_eq!(event.to, recipient);
    assert_eq!(event.amount, 100);
    assert_eq!(event.timestamp, NOW + 1);
    assert_eq!(wallet.owner, record.owner);
    assert_eq!(wallet.created_at, record.created_at);
}

#[test]
fn native_transfer_failed_ledger_changes_nothing() {
    let owner = id(1);
    let (registry, record, wallet_address) = wallet_for(owner);
    let accounts = TransferSol {
        wallet: record,
        wallet_address,
        sender: owner,
        sender_balance: 1_000,
        recipient: id(2),
    };
    let mv = wallet_program::transfer_sol_handler(&registry.program_id, &accounts, 100)
        .expect("decision allows the transfer");

    let mut wallet = record;
    let settled = wallet_program::settle_sol_transfer(&mut wallet, &mv, false, NOW + 1);
    assert_eq!(settled, Err(WalletError::TransactionFailed));
    assert_eq!(wallet.transaction_count, record.transaction_count);
    assert_eq!(wallet.owner, record.owner);
}

#[test]
fn native_transfer_insufficient_balance() {
    let owner = id(1);
    let (registry, record, wallet_address) = wallet_for(owner);
    let accounts = TransferSol {
        wallet: record,
        wallet_address,
        sender: owner,
        sender_balance: 50,
        recipient: id(2),
    };
    let decision = wallet_program::transfer_sol_handler(&registry.program_id, &accounts, 100);
    assert_eq!(decision, Err(WalletError::InsufficientBalance));
}

#[test]
fn native_transfer_zero_amount_is_accepted() {
    // A zero-amount transfer passes the balance check and is counted.
    let owner = id(1);
    let (registry, record, wallet_address) = wallet_for(owner);
    let accounts = TransferSol {
        wallet: record,
        wallet_address,
        sender: owner,
        sender_balance: 0,
        recipient: id(2),
    };
    let mv = wallet_program::transfer_sol_handler(&registry.program_id, &accounts, 0)
        .expect("zero amount is allowed");
    assert_eq!(mv.amount, 0);
}

#[test]
fn native_transfer_unauthorized_on_forged_record() {
    // A record at the sender's derived address whose owner field names
    // someone else fails authorization, not addressing.
    let sender = id(3);
    let (registry, record, wallet_address) = wallet_for(sender);
    let forged = WalletAccount { owner: id(1), ..record };
    let accounts = TransferSol {
        wallet: forged,
        wallet_address,
        sender,
        sender_balance: 1_000,
        recipient: id(2),
    };
    let decision = wallet_program::transfer_sol_handler(&registry.program_id, &accounts, 100);
    assert_eq!(decision, Err(WalletError::Unauthorized));
}

#[test]
fn native_transfer_foreign_wallet_address_mismatch() {
    // A sender naming someone else's wallet record fails the address
    // re-derivation.
    let owner = id(1);
    let (registry, record, wallet_address) = wallet_for(owner);
    let accounts = TransferSol {
        wallet: record,
        wallet_address,
        sender: id(4),
        sender_balance: 1_000,
        recipient: id(2),
    };
    let decision = wallet_program::transfer_sol_handler(&registry.program_id, &accounts, 100);
    assert_eq!(decision, Err(WalletError::AddressMismatch));
}

#[test]
fn repeated_transfers_count_each_settlement() {
    let owner = id(1);
    let (registry, record, wallet_address) = wallet_for(owner);
    let mut wallet = record;
    let amounts: [u64; 3] = [1, 99, 0];
    for (step, amount) in amounts.iter().enumerate() {
        let accounts = TransferSol {
            wallet,
            wallet_address,
            sender: owner,
            sender_balance: 1_000,
            recipient: id(2),
        };
        let mv = wallet_program::transfer_sol_handler(&registry.program_id, &accounts, *amount)
            .expect("decision allows the transfer");
        wallet_program::settle_sol_transfer(&mut wallet, &mv, true, NOW + step as i64)
            .expect("confirmed move settles");
    }
    assert_eq!(wallet.transaction_count, 3);
}

fn holding(address: AccountId, mint: AccountId, amount: u64) -> TokenHolding {
    TokenHolding { address, mint, amount }
}

#[test]
fn token_transfer_settles_with_mint_in_event() {
    let owner = id(1);
    let mint = id(7);
    let (registry, record, wallet_address) = wallet_for(owner);
    let accounts = TransferSPLToken {
        wallet: record,
        wallet_address,
        authority: owner,
        from_token_account: holding(id(5), mint, 500),
        to_token_account: holding(id(6), mint, 0),
    };
    let mv = wallet_program::transfer_spl_token_handler(&registry.program_id, &accounts, 200)
        .expect("decision allows the transfer");
    assert_eq!(
        mv,
        TokenMove { from: id(5), to: id(6), authority: owner, amount: 200 }
    );

    let mut wallet = record;
    let event = wallet_program::settle_token_transfer(&mut wallet, &mv, &mint, true, NOW + 2)
        .expect("confirmed move settles");
    assert_eq!(wallet.transaction_count, 1);
    assert_eq!(event.mint, mint);
    assert_eq!(event.from, id(5));
    assert_eq!(event.to, id(6));
    assert_eq!(event.amount, 200);
}

#[test]
fn token_transfer_cross_asset_rejected() {
    let owner = id(1);
    let (registry, record, wallet_address) = wallet_for(owner);
    let accounts = TransferSPLToken {
        wallet: record,
        wallet_address,
        authority: owner,
        from_token_account: holding(id(5), id(7), 500),
        to_token_account: holding(id(6), id(8), 0),
    };
    let decision = wallet_program::transfer_spl_token_handler(&registry.program_id, &accounts, 200);
    assert_eq!(decision, Err(WalletError::InvalidRecipient));
}

#[test]
fn token_transfer_insufficient_holding() {
    let owner = id(1);
    let mint = id(7);
    let (registry, record, wallet_address) = wallet_for(owner);
    let accounts = TransferSPLToken {
        wallet: record,
        wallet_address,
        authority: owner,
        from_token_account: holding(id(5), mint, 10),
        to_token_account: holding(id(6), mint, 0),
    };
    let decision = wallet_program::transfer_spl_token_handler(&registry.program_id, &accounts, 20);
    assert_eq!(decision, Err(WalletError::InsufficientBalance));
}

#[test]
fn token_transfer_unauthorized_on_forged_record() {
    let authority = id(3);
    let mint = id(7);
    let (registry, record, wallet_address) = wallet_for(authority);
    let forged = WalletAccount { owner: id(1), ..record };
    let accounts = TransferSPLToken {
        wallet: forged,
        wallet_address,
        authority,
        from_token_account: holding(id(5), mint, 500),
        to_token_account: holding(id(6), mint, 0),
    };
    let decision = wallet_program::transfer_spl_token_handler(&registry.program_id, &accounts, 100);
    assert_eq!(decision, Err(WalletError::Unauthorized));
}

#[test]
fn wallet_account_methods() {
    let owner = id(1);
    let mut record = WalletAccount {
        owner: id(0),
        created_at: 0,
        transaction_count: 0,
        bump: 0,
    };
    record.initialize(owner, NOW, 42);
    assert_eq!(record.owner, owner);
    assert_eq!(record.created_at, NOW);
    assert_eq!(record.transaction_count, 0);
    assert_eq!(record.bump, 42);
    assert!(record.validate_owner(&owner));
    assert!(!record.validate_owner(&id(2)));
    record.increment_transaction_count();
    record.increment_transaction_count();
    assert_eq!(record.transaction_count, 2);
}

#[test]
fn program_entry_points_delegate() {
    let owner = id(1);
    let mut registry = WalletRegistry::new(id(9));
    let request = wallet_program::InitializeWallet { owner };
    let ev = wallet_program::initialize_wallet(&mut registry, &request, NOW)
        .expect("initialization succeeds");
    let again = wallet_program::handler(&mut registry, &request, NOW);
    assert_eq!(again, Err(WalletError::AlreadyExists));

    let record = registry.get(&ev.wallet).expect("record stored");
    let native = TransferSol {
        wallet: record,
        wallet_address: ev.wallet,
        sender: owner,
        sender_balance: 10,
        recipient: id(2),
    };
    assert!(wallet_program::transfer_sol(&registry.program_id, &native, 5).is_ok());

    let mint = id(7);
    let token = TransferSPLToken {
        wallet: record,
        wallet_address: ev.wallet,
        authority: owner,
        from_token_account: holding(id(5), mint, 10),
        to_token_account: holding(id(6), mint, 0),
    };
    assert!(wallet_program::transfer_spl_token(&registry.program_id, &token, 5).is_ok());
}
