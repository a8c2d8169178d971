use collateral_vault::address::Address;
use collateral_vault::ds::{CollateralVault, TransactionRecord, TransactionType, VaultAuthority};
use collateral_vault::{
    deposit, deposit_transfer, initialize, lock_collateral, unlock_collateral, withdraw, Deposit,
    ErrorCode, Initialize, LockUnlock, Withdraw,
};

fn addr(tag: u8) -> Address {
    Address::new_from_array([tag; 32])
}

fn user() -> Address {
    addr(1)
}

fn custody() -> Address {
    addr(2)
}

fn ledger_key() -> Address {
    addr(3)
}

fn wallet() -> Address {
    addr(4)
}

fn program_c() -> Address {
    addr(5)
}

fn program_d() -> Address {
    addr(6)
}

fn registry_with(programs: &[Address]) -> VaultAuthority {
    let mut registry = VaultAuthority::new(254);
    for p in programs {
        assert_eq!(registry.authorize(*p), Ok(()));
    }
    registry
}

fn after_deposit() -> CollateralVault {
    let mut init = Initialize { user: user(), vault: None, token_vault: custody() };
    assert_eq!(initialize(&mut init, 255, 1_700_000_000), Ok(()));
    let mut ctx = Deposit {
        vault_key: ledger_key(),
        vault: init.vault.unwrap(),
        user_token_account: wallet(),
        owner: user(),
    };
    assert!(deposit(&mut ctx, 100, 1_700_000_001).is_ok());
    ctx.vault
}

fn after_lock() -> CollateralVault {
    let mut ctx = LockUnlock {
        vault_key: ledger_key(),
        vault: after_deposit(),
        vault_authority: registry_with(&[program_c()]),
        caller_program: program_c(),
    };
    assert!(lock_collateral(&mut ctx, 40, 1_700_000_002).is_ok());
    ctx.vault
}

fn balanced(v: &CollateralVault) -> bool {
    v.total_balance as u128 == v.locked_balance as u128 + v.available_balance as u128
        && v.locked_balance <= v.total_balance
        && v.available_balance <= v.total_balance
}

#[test]
fn initialize_creates_zeroed_ledger() {
    let mut init = Initialize { user: user(), vault: None, token_vault: custody() };
    assert_eq!(initialize(&mut init, 255, 1_700_000_000), Ok(()));
    let v = init.vault.unwrap();
    assert_eq!(
        v,
        CollateralVault {
            owner: user(),
            token_account: custody(),
            total_balance: 0,
            locked_balance: 0,
            available_balance: 0,
            total_deposited: 0,
            total_withdrawn: 0,
            created_at: 1_700_000_000,
            bump: 255,
        }
    );
    assert_eq!(init.user, user());
    assert_eq!(init.token_vault, custody());
}

#[test]
fn initialize_twice_is_refused() {
    let mut init = Initialize { user: user(), vault: None, token_vault: custody() };
    assert_eq!(initialize(&mut init, 255, 10), Ok(()));
    let before = init;
    assert_eq!(initialize(&mut init, 9, 20), Err(ErrorCode::AlreadyInitialized));
    assert_eq!(init, before);
}

#[test]
fn deposit_after_initialize_is_available() {
    let v = after_deposit();
    assert_eq!(v.total_balance, 100);
    assert_eq!(v.available_balance, 100);
    assert_eq!(v.locked_balance, 0);
    assert_eq!(v.total_deposited, 100);
    assert_eq!(v.total_withdrawn, 0);
    assert_eq!(v.owner, user());
}

#[test]
fn deposit_returns_its_record() {
    let mut ctx = Deposit {
        vault_key: ledger_key(),
        vault: CollateralVault::new(user(), custody(), 1, 5),
        user_token_account: wallet(),
        owner: user(),
    };
    let record = deposit(&mut ctx, 25, 77).unwrap();
    assert_eq!(
        record,
        TransactionRecord {
            vault: ledger_key(),
            transaction_type: TransactionType::Deposit,
            amount: 25,
            timestamp: 77,
        }
    );
}

#[test]
fn authorized_lock_moves_available_to_locked() {
    let v = after_lock();
    assert_eq!(v.available_balance, 60);
    assert_eq!(v.locked_balance, 40);
    assert_eq!(v.total_balance, 100);
    assert_eq!(v.total_deposited, 100);
}

#[test]
fn unauthorized_lock_changes_nothing() {
    let mut ctx = LockUnlock {
        vault_key: ledger_key(),
        vault: after_lock(),
        vault_authority: registry_with(&[program_c()]),
        caller_program: program_d(),
    };
    let before = ctx.clone();
    assert_eq!(lock_collateral(&mut ctx, 10, 3), Err(ErrorCode::UnauthorizedProgram));
    assert_eq!(ctx, before);
}

#[test]
fn withdraw_more_than_available_is_refused() {
    let mut ctx = Withdraw {
        vault_key: ledger_key(),
        vault: after_lock(),
        user_token_account: wallet(),
        owner: user(),
    };
    let before = ctx;
    assert_eq!(withdraw(&mut ctx, 70, 4).unwrap_err(), ErrorCode::InsufficientFunds);
    assert_eq!(ctx, before);
    assert_eq!(ctx.vault.available_balance, 60);
}

#[test]
fn withdraw_all_that_is_available() {
    let mut ctx = Withdraw {
        vault_key: ledger_key(),
        vault: after_lock(),
        user_token_account: wallet(),
        owner: user(),
    };
    let (request, record) = withdraw(&mut ctx, 60, 4).unwrap();
    assert_eq!(ctx.vault.available_balance, 0);
    assert_eq!(ctx.vault.total_balance, 40);
    assert_eq!(ctx.vault.total_withdrawn, 60);
    assert_eq!(ctx.vault.locked_balance, 40);
    assert_eq!(ctx.vault.total_deposited, 100);
    assert_eq!(record.transaction_type, TransactionType::Withdrawal);
    assert_eq!(record.amount, 60);
    assert_eq!(record.timestamp, 4);
    assert_eq!(record.vault, ledger_key());
    assert_eq!(request.amount, 60);
}

#[test]
fn withdrawal_is_authorized_by_the_ledger_itself() {
    let mut ctx = Withdraw {
        vault_key: ledger_key(),
        vault: after_deposit(),
        user_token_account: wallet(),
        owner: user(),
    };
    let (request, _) = withdraw(&mut ctx, 1, 4).unwrap();
    assert_eq!(request.from, custody());
    assert_eq!(request.to, wallet());
    assert_eq!(request.authority, ledger_key());
    assert_eq!(
        request.signer_seeds,
        vec![b"vault".to_vec(), user().to_bytes().to_vec(), vec![255u8]]
    );
}

#[test]
fn withdraw_by_someone_else_is_unauthorized_whatever_the_amount() {
    let mut ctx = Withdraw {
        vault_key: ledger_key(),
        vault: after_lock(),
        user_token_account: wallet(),
        owner: program_d(),
    };
    let before = ctx;
    assert_eq!(withdraw(&mut ctx, 10, 4).unwrap_err(), ErrorCode::Unauthorized);
    assert_eq!(withdraw(&mut ctx, 1_000, 4).unwrap_err(), ErrorCode::Unauthorized);
    assert_eq!(ctx, before);
}

#[test]
fn withdraw_of_zero_succeeds_and_changes_no_balance() {
    let mut ctx = Withdraw {
        vault_key: ledger_key(),
        vault: after_lock(),
        user_token_account: wallet(),
        owner: user(),
    };
    let before = ctx.vault;
    assert!(withdraw(&mut ctx, 0, 4).is_ok());
    assert_eq!(ctx.vault, before);
}

#[test]
fn withdraw_counter_overflow_is_refused() {
    let mut v = after_deposit();
    v.total_withdrawn = u64::MAX;
    let mut ctx =
        Withdraw { vault_key: ledger_key(), vault: v, user_token_account: wallet(), owner: user() };
    assert_eq!(withdraw(&mut ctx, 1, 4).unwrap_err(), ErrorCode::Overflow);
    assert_eq!(ctx.vault, v);
}

#[test]
fn withdraw_from_unbalanced_ledger_underflows() {
    let mut v = after_deposit();
    v.total_balance = 5;
    let mut ctx =
        Withdraw { vault_key: ledger_key(), vault: v, user_token_account: wallet(), owner: user() };
    assert_eq!(withdraw(&mut ctx, 50, 4).unwrap_err(), ErrorCode::Underflow);
    assert_eq!(ctx.vault, v);
}

#[test]
fn deposit_of_zero_is_invalid() {
    let mut ctx = Deposit {
        vault_key: ledger_key(),
        vault: after_deposit(),
        user_token_account: wallet(),
        owner: user(),
    };
    let before = ctx;
    assert_eq!(deposit(&mut ctx, 0, 1), Err(ErrorCode::InvalidAmount));
    assert_eq!(ctx, before);
    assert_eq!(deposit_transfer(&ctx, 0), Err(ErrorCode::InvalidAmount));
}

#[test]
fn deposit_that_overflows_is_refused() {
    let mut ctx = Deposit {
        vault_key: ledger_key(),
        vault: after_deposit(),
        user_token_account: wallet(),
        owner: user(),
    };
    let before = ctx;
    assert_eq!(deposit(&mut ctx, u64::MAX - 99, 1), Err(ErrorCode::Overflow));
    assert_eq!(ctx, before);
    assert_eq!(deposit_transfer(&ctx, u64::MAX - 99), Err(ErrorCode::Overflow));
    assert!(deposit(&mut ctx, u64::MAX - 100, 1).is_ok());
    assert_eq!(ctx.vault.total_balance, u64::MAX);
    assert_eq!(ctx.vault.available_balance, u64::MAX);
    assert_eq!(ctx.vault.total_deposited, u64::MAX);
}

#[test]
fn deposit_counter_overflow_is_refused() {
    let mut v = CollateralVault::new(user(), custody(), 1, 5);
    v.total_deposited = u64::MAX - 3;
    let mut ctx =
        Deposit { vault_key: ledger_key(), vault: v, user_token_account: wallet(), owner: user() };
    assert_eq!(deposit(&mut ctx, 4, 1), Err(ErrorCode::Overflow));
    assert_eq!(ctx.vault, v);
    assert!(deposit(&mut ctx, 3, 1).is_ok());
}

#[test]
fn deposit_transfer_names_depositor_and_custody() {
    let ctx = Deposit {
        vault_key: ledger_key(),
        vault: after_deposit(),
        user_token_account: wallet(),
        owner: user(),
    };
    let request = deposit_transfer(&ctx, 30).unwrap();
    assert_eq!(request.from, wallet());
    assert_eq!(request.to, custody());
    assert_eq!(request.authority, user());
    assert_eq!(request.amount, 30);
    assert!(request.signer_seeds.is_empty());
    assert_eq!(ctx.vault, after_deposit());
}

#[test]
fn unauthorized_and_insufficient_lock_reports_only_the_caller() {
    let mut ctx = LockUnlock {
        vault_key: ledger_key(),
        vault: after_lock(),
        vault_authority: registry_with(&[program_c()]),
        caller_program: program_d(),
    };
    assert_eq!(lock_collateral(&mut ctx, 61, 3), Err(ErrorCode::UnauthorizedProgram));
    assert_eq!(lock_collateral(&mut ctx, u64::MAX, 3), Err(ErrorCode::UnauthorizedProgram));
    assert_eq!(unlock_collateral(&mut ctx, 41, 3), Err(ErrorCode::UnauthorizedProgram));
    ctx.caller_program = program_c();
    assert_eq!(lock_collateral(&mut ctx, 61, 3), Err(ErrorCode::InsufficientFunds));
}

#[test]
fn unlock_returns_collateral() {
    let mut ctx = LockUnlock {
        vault_key: ledger_key(),
        vault: after_lock(),
        vault_authority: registry_with(&[program_c()]),
        caller_program: program_c(),
    };
    let record = unlock_collateral(&mut ctx, 15, 9).unwrap();
    assert_eq!(record.transaction_type, TransactionType::Unlock);
    assert_eq!(record.amount, 15);
    assert_eq!(ctx.vault.locked_balance, 25);
    assert_eq!(ctx.vault.available_balance, 75);
    assert_eq!(ctx.vault.total_balance, 100);
}

#[test]
fn unlock_more_than_locked_is_a_math_error() {
    let mut ctx = LockUnlock {
        vault_key: ledger_key(),
        vault: after_lock(),
        vault_authority: registry_with(&[program_c()]),
        caller_program: program_c(),
    };
    let before = ctx.clone();
    assert_eq!(unlock_collateral(&mut ctx, 41, 9), Err(ErrorCode::MathError));
    assert_eq!(ctx, before);
}

#[test]
fn lock_record_and_registry_are_kept() {
    let mut ctx = LockUnlock {
        vault_key: ledger_key(),
        vault: after_deposit(),
        vault_authority: registry_with(&[program_d(), program_c()]),
        caller_program: program_c(),
    };
    let record = lock_collateral(&mut ctx, 100, 12).unwrap();
    assert_eq!(
        record,
        TransactionRecord {
            vault: ledger_key(),
            transaction_type: TransactionType::Lock,
            amount: 100,
            timestamp: 12,
        }
    );
    assert_eq!(ctx.vault_authority, registry_with(&[program_d(), program_c()]));
    assert_eq!(ctx.vault.available_balance, 0);
    assert_eq!(ctx.vault.locked_balance, 100);
}

#[test]
fn lock_overflow_on_unbalanced_ledger_is_refused() {
    let mut v = after_deposit();
    v.locked_balance = u64::MAX;
    let mut ctx = LockUnlock {
        vault_key: ledger_key(),
        vault: v,
        vault_authority: registry_with(&[program_c()]),
        caller_program: program_c(),
    };
    assert_eq!(lock_collateral(&mut ctx, 1, 3), Err(ErrorCode::Overflow));
    assert_eq!(ctx.vault, v);
}

#[test]
fn primitives_check_their_arithmetic() {
    let mut v = CollateralVault::new(user(), custody(), 1, 5);
    assert_eq!(v.credit(10), Ok(()));
    assert_eq!((v.total_balance, v.available_balance, v.total_deposited), (10, 10, 10));
    assert_eq!(v.move_to_locked(4), Ok(()));
    assert_eq!((v.available_balance, v.locked_balance), (6, 4));
    let kept = v;
    assert_eq!(v.move_to_locked(7), Err(ErrorCode::Underflow));
    assert_eq!(v.move_to_available(5), Err(ErrorCode::Underflow));
    assert_eq!(v.debit(7), Err(ErrorCode::Underflow));
    assert_eq!(v.credit(u64::MAX), Err(ErrorCode::Overflow));
    assert_eq!(v, kept);
    assert_eq!(v.move_to_available(4), Ok(()));
    assert_eq!((v.available_balance, v.locked_balance), (10, 0));
    assert_eq!(v.debit(10), Ok(()));
    assert_eq!((v.total_balance, v.available_balance, v.total_withdrawn), (0, 0, 10));
    let mut w = kept;
    w.available_balance = u64::MAX;
    let kept_w = w;
    assert_eq!(w.move_to_available(1), Err(ErrorCode::Overflow));
    assert_eq!(w, kept_w);
}

#[test]
fn balance_split_and_counters_hold_along_a_history() {
    let registry = registry_with(&[program_c()]);
    let mut v = CollateralVault::new(user(), custody(), 1, 5);
    let mut deposited: u64 = 0;
    let mut withdrawn: u64 = 0;
    let amounts: [u64; 9] = [0, 1, 7, 40, 100, 250, 1_000, u64::MAX / 2, u64::MAX];
    for round in 0u64..4u64 {
        for a in amounts {
            let mut d =
                Deposit { vault_key: ledger_key(), vault: v, user_token_account: wallet(), owner: user() };
            let _ = deposit(&mut d, a / (round + 1), 1);
            v = d.vault;
            assert!(balanced(&v));
            let mut l = LockUnlock {
                vault_key: ledger_key(),
                vault: v,
                vault_authority: registry.clone(),
                caller_program: if a % 2 == 0 { program_c() } else { program_d() },
            };
            let _ = lock_collateral(&mut l, a / 3, 2);
            assert!(balanced(&l.vault));
            let _ = unlock_collateral(&mut l, a / 7, 3);
            v = l.vault;
            assert!(balanced(&v));
            let mut w = Withdraw {
                vault_key: ledger_key(),
                vault: v,
                user_token_account: wallet(),
                owner: if a % 5 == 0 { program_d() } else { user() },
            };
            let _ = withdraw(&mut w, a / 2, 4);
            v = w.vault;
            assert!(balanced(&v));
            assert!(v.total_deposited >= deposited);
            assert!(v.total_withdrawn >= withdrawn);
            deposited = v.total_deposited;
            withdrawn = v.total_withdrawn;
            assert_eq!(v.owner, user());
            assert_eq!(v.token_account, custody());
        }
    }
    assert!(deposited > 0);
    assert!(withdrawn > 0);
}

#[test]
fn addresses_compare_by_their_bytes() {
    let mut bytes = [9u8; 32];
    let a = Address::new_from_array(bytes);
    assert!(a.same_as(&Address::new_from_array([9u8; 32])));
    bytes[31] = 8;
    assert!(!a.same_as(&Address::new_from_array(bytes)));
    bytes[31] = 9;
    bytes[0] = 0;
    assert!(!a.same_as(&Address::new_from_array(bytes)));
    assert_eq!(a.to_bytes(), [9u8; 32]);
    assert_eq!(a.to_vec(), vec![9u8; 32]);
}

#[test]
fn refusals_have_their_messages() {
    assert_eq!(ErrorCode::InvalidAmount.message(), "InvalidAmount.");
    assert_eq!(ErrorCode::Overflow.message(), "Calculation overflow.");
    assert_eq!(ErrorCode::Underflow.message(), "Calculation underflow.");
    assert_eq!(ErrorCode::InsufficientFunds.message(), "Insufficient available balance.");
    assert_eq!(ErrorCode::MathError.message(), "Math error.");
    assert_eq!(ErrorCode::Unauthorized.message(), "Unauthorized access.");
    assert_eq!(
        ErrorCode::UnauthorizedProgram.message(),
        "Program not authorized to lock/unlock."
    );
    assert_eq!(ErrorCode::AlreadyInitialized.message(), "Already initialized.");
    assert_eq!(ErrorCode::RegistryFull.message(), "Authorization registry is full.");
    assert_eq!(
        collateral_vault::deposit::ErrorCode::InvalidAmount.message(),
        "Amount must be greater than 0"
    );
}
