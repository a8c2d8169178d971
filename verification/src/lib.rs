pub mod address;
pub mod backend;
pub mod create;
pub mod deposit;
pub mod ds;
pub mod invariants;
pub mod pda;

use crate::address::Address;
use crate::ds::{
    fresh_vault, programs_after_authorize, programs_after_revoke, CollateralVault,
    TransactionRecord, TransactionType, TransferRequest, VaultAuthority,
};
use crate::pda::{vault_signer_seeds, vault_signer_seeds_of};
use vstd::prelude::*;

verus! {

/// Why a ledger operation was refused. A refused operation changes nothing.
#[derive(Clone, Copy, Debug, PartialEq, Eq)]
pub enum ErrorCode {
    /// The amount is zero.
    InvalidAmount,
    /// A checked addition on a balance or counter left the range of `u64`.
    Overflow,
    /// A checked subtraction on a balance would have gone below zero.
    Underflow,
    /// Less is available than a withdrawal or a lock asks for.
    InsufficientFunds,
    /// Less is locked than an unlock asks for.
    MathError,
    /// The caller is not the owner of the ledger.
    Unauthorized,
    /// The calling program is not in the authorization registry.
    UnauthorizedProgram,
    /// The ledger or the registry exists already.
    AlreadyInitialized,
    /// The authorization registry has no room for another program.
    RegistryFull,
}

impl ErrorCode {
    /// The text in which the refusal is reported.
    pub fn message(&self) -> (text: &'static str)
        ensures
            text@ == self.spec_message(),
    {
        match self {
            ErrorCode::InvalidAmount => "InvalidAmount.",
            ErrorCode::Overflow => "Calculation overflow.",
            ErrorCode::Underflow => "Calculation underflow.",
            ErrorCode::InsufficientFunds => "Insufficient available balance.",
            ErrorCode::MathError => "Math error.",
            ErrorCode::Unauthorized => "Unauthorized access.",
            ErrorCode::UnauthorizedProgram => "Program not authorized to lock/unlock.",
            ErrorCode::AlreadyInitialized => "Already initialized.",
            ErrorCode::RegistryFull => "Authorization registry is full.",
        }
    }

    /// The text in which the refusal is reported.
    pub open spec fn spec_message(&self) -> Seq<char> {
        match self {
            ErrorCode::InvalidAmount => "InvalidAmount."@,
            ErrorCode::Overflow => "Calculation overflow."@,
            ErrorCode::Underflow => "Calculation underflow."@,
            ErrorCode::InsufficientFunds => "Insufficient available balance."@,
            ErrorCode::MathError => "Math error."@,
            ErrorCode::Unauthorized => "Unauthorized access."@,
            ErrorCode::UnauthorizedProgram => "Program not authorized to lock/unlock."@,
            ErrorCode::AlreadyInitialized => "Already initialized."@,
            ErrorCode::RegistryFull => "Authorization registry is full."@,
        }
    }
}

/// What `initialize` works on: the depositor, the custody account, and the
/// place of the ledger, empty until the ledger has been created.
#[derive(Clone, Copy, Debug, PartialEq, Eq)]
pub struct Initialize {
    pub user: Address,
    pub vault: Option<CollateralVault>,
    pub token_vault: Address,
}

/// What `initialize_authority` works on: the place of the registry, empty
/// until the registry has been created.
#[derive(Clone, Debug, PartialEq, Eq)]
pub struct InitializeAuthority {
    pub vault_authority: Option<VaultAuthority>,
    pub payer: Address,
}

/// What `deposit` works on.
#[derive(Clone, Copy, Debug, PartialEq, Eq)]
pub struct Deposit {
    /// The address of the ledger.
    pub vault_key: Address,
    pub vault: CollateralVault,
    /// The depositor's own account, which the funds come from.
    pub user_token_account: Address,
    /// The depositor, who authorizes the transfer into custody.
    pub owner: Address,
}

/// What `withdraw` works on.
#[derive(Clone, Copy, Debug, PartialEq, Eq)]
pub struct Withdraw {
    /// The address of the ledger.
    pub vault_key: Address,
    pub vault: CollateralVault,
    /// The depositor's own account, which the funds go to.
    pub user_token_account: Address,
    /// Who asks for the withdrawal.
    pub owner: Address,
}

/// What `authorize_program` and `revoke_program` work on.
#[derive(Clone, Debug, PartialEq, Eq)]
pub struct ManageAuthority {
    pub vault_authority: VaultAuthority,
    pub admin: Address,
}

/// What `lock_collateral` and `unlock_collateral` work on.
#[derive(Clone, Debug, PartialEq, Eq)]
pub struct LockUnlock {
    /// The address of the ledger.
    pub vault_key: Address,
    pub vault: CollateralVault,
    pub vault_authority: VaultAuthority,
    /// The program that asks.
    pub caller_program: Address,
}

/// A deposit of `amount`: refused when the amount is zero, else a credit.
pub open spec fn spec_deposit(vault: CollateralVault, amount: u64) -> Result<
    CollateralVault,
    ErrorCode,
> {
    if amount == 0 {
        Err(ErrorCode::InvalidAmount)
    } else {
        vault.after_credit(amount)
    }
}

/// A withdrawal of `amount` by `caller`. Who asks is checked first, what is
/// available second.
pub open spec fn spec_withdraw(vault: CollateralVault, caller: Address, amount: u64) -> Result<
    CollateralVault,
    ErrorCode,
> {
    if caller != vault.owner {
        Err(ErrorCode::Unauthorized)
    } else if vault.available_balance < amount {
        Err(ErrorCode::InsufficientFunds)
    } else {
        vault.after_debit(amount)
    }
}

/// A lock of `amount` by `caller` under the registry `programs`. Who asks is
/// checked first, what is available second.
pub open spec fn spec_lock(
    vault: CollateralVault,
    programs: Seq<Address>,
    caller: Address,
    amount: u64,
) -> Result<CollateralVault, ErrorCode> {
    if !programs.contains(caller) {
        Err(ErrorCode::UnauthorizedProgram)
    } else if vault.available_balance < amount {
        Err(ErrorCode::InsufficientFunds)
    } else {
        vault.after_move_to_locked(amount)
    }
}

/// An unlock of `amount` by `caller` under the registry `programs`. Who asks
/// is checked first, what is locked second.
pub open spec fn spec_unlock(
    vault: CollateralVault,
    programs: Seq<Address>,
    caller: Address,
    amount: u64,
) -> Result<CollateralVault, ErrorCode> {
    if !programs.contains(caller) {
        Err(ErrorCode::UnauthorizedProgram)
    } else if vault.locked_balance < amount {
        Err(ErrorCode::MathError)
    } else {
        vault.after_move_to_available(amount)
    }
}

/// The record of a transition of the ledger at `vault_key`.
pub open spec fn record_of(
    vault_key: Address,
    transaction_type: TransactionType,
    amount: u64,
    timestamp: i64,
) -> TransactionRecord {
    TransactionRecord { vault: vault_key, transaction_type, amount, timestamp }
}

/// Creates the ledger of `ctx.user` over the custody account
/// `ctx.token_vault`, with every balance and counter at zero. A ledger that
/// exists already is left as it is.
pub fn initialize(ctx: &mut Initialize, bump: u8, now: i64) -> (r: Result<(), ErrorCode>)
    ensures
        match old(ctx).vault {
            Some(_) => r == Err::<(), ErrorCode>(ErrorCode::AlreadyInitialized) && *final(ctx)
                == *old(ctx),
            None => r is Ok && *final(ctx) == (Initialize {
                vault: Some(fresh_vault(old(ctx).user, old(ctx).token_vault, bump, now)),
                ..*old(ctx)
            }),
        },
        r is Ok ==> final(ctx).vault.unwrap().balanced(),
{
    if ctx.vault.is_some() {
        return Err(ErrorCode::AlreadyInitialized);
    }
    ctx.vault = Some(CollateralVault::new(ctx.user, ctx.token_vault, bump, now));
    Ok(())
}

/// Creates the authorization registry, with nobody in it. A registry that
/// exists already is left as it is.
pub fn initialize_authority(ctx: &mut InitializeAuthority, bump: u8) -> (r: Result<
    (),
    ErrorCode,
>)
    ensures
        match old(ctx).vault_authority {
            Some(_) => r == Err::<(), ErrorCode>(ErrorCode::AlreadyInitialized) && *final(ctx)
                == *old(ctx),
            None => {
                &&& r is Ok
                &&& final(ctx).vault_authority is Some
                &&& final(ctx).vault_authority.unwrap().authorized_programs@ == Seq::<
                    Address,
                >::empty()
                &&& final(ctx).vault_authority.unwrap().bump == bump
                &&& final(ctx).vault_authority.unwrap().well_formed()
                &&& final(ctx).payer == old(ctx).payer
            },
        },
{
    if ctx.vault_authority.is_some() {
        return Err(ErrorCode::AlreadyInitialized);
    }
    ctx.vault_authority = Some(VaultAuthority::new(bump));
    Ok(())
}

/// The transfer into custody that a deposit of `amount` needs, or the reason
/// why the deposit would be refused. Nothing is changed: the ledger is
/// credited by `deposit`, once the custody layer has confirmed the transfer.
pub fn deposit_transfer(ctx: &Deposit, amount: u64) -> (r: Result<TransferRequest, ErrorCode>)
    ensures
        match spec_deposit(ctx.vault, amount) {
            Ok(_) => {
                &&& r matches Ok(request)
                &&& request.from == ctx.user_token_account
                &&& request.to == ctx.vault.token_account
                &&& request.authority == ctx.owner
                &&& request.amount == amount
                &&& request.signer_seeds@.len() == 0
            },
            Err(e) => r == Err::<TransferRequest, ErrorCode>(e),
        },
{
    if amount == 0 {
        return Err(ErrorCode::InvalidAmount);
    }
    let mut probe = ctx.vault;
    match probe.credit(amount) {
        Ok(()) => Ok(
            TransferRequest {
                from: ctx.user_token_account,
                to: ctx.vault.token_account,
                authority: ctx.owner,
                amount,
                signer_seeds: Vec::new(),
            },
        ),
        Err(e) => Err(e),
    }
}

/// Credits a confirmed deposit of `amount` to the ledger and returns its
/// record. A refused deposit leaves the ledger as it was.
pub fn deposit(ctx: &mut Deposit, amount: u64, now: i64) -> (r: Result<
    TransactionRecord,
    ErrorCode,
>)
    ensures
        match spec_deposit(old(ctx).vault, amount) {
            Ok(vault) => r == Ok::<TransactionRecord, ErrorCode>(
                record_of(old(ctx).vault_key, TransactionType::Deposit, amount, now),
            ) && *final(ctx) == (Deposit { vault, ..*old(ctx) }),
            Err(e) => r == Err::<TransactionRecord, ErrorCode>(e) && *final(ctx) == *old(ctx),
        },
        old(ctx).vault.balanced() ==> final(ctx).vault.balanced(),
        final(ctx).vault.total_deposited >= old(ctx).vault.total_deposited,
        final(ctx).vault.total_withdrawn >= old(ctx).vault.total_withdrawn,
{
    if amount == 0 {
        return Err(ErrorCode::InvalidAmount);
    }
    match ctx.vault.credit(amount) {
        Ok(()) => Ok(
            TransactionRecord {
                vault: ctx.vault_key,
                transaction_type: TransactionType::Deposit,
                amount,
                timestamp: now,
            },
        ),
        Err(e) => Err(e),
    }
}

/// Debits a withdrawal of `amount` from the ledger, and returns the transfer
/// out of custody that the ledger itself authorizes, with the record. Only the
/// owner may withdraw, and only what is available. A refused withdrawal leaves
/// the ledger as it was.
pub fn withdraw(ctx: &mut Withdraw, amount: u64, now: i64) -> (r: Result<
    (TransferRequest, TransactionRecord),
    ErrorCode,
>)
    ensures
        match spec_withdraw(old(ctx).vault, old(ctx).owner, amount) {
            Ok(vault) => {
                &&& r matches Ok((request, record))
                &&& request.from == old(ctx).vault.token_account
                &&& request.to == old(ctx).user_token_account
                &&& request.authority == old(ctx).vault_key
                &&& request.amount == amount
                &&& request.signer_seeds.deep_view() == vault_signer_seeds(
                    old(ctx).vault.owner,
                    old(ctx).vault.bump,
                )
                &&& record == record_of(
                    old(ctx).vault_key,
                    TransactionType::Withdrawal,
                    amount,
                    now,
                )
                &&& *final(ctx) == (Withdraw { vault, ..*old(ctx) })
            },
            Err(e) => r == Err::<(TransferRequest, TransactionRecord), ErrorCode>(e) && *final(ctx) == *old(ctx),
        },
        old(ctx).vault.balanced() ==> final(ctx).vault.balanced(),
        final(ctx).vault.total_deposited >= old(ctx).vault.total_deposited,
        final(ctx).vault.total_withdrawn >= old(ctx).vault.total_withdrawn,
{
    if !ctx.owner.same_as(&ctx.vault.owner) {
        return Err(ErrorCode::Unauthorized);
    }
    if ctx.vault.available_balance < amount {
        return Err(ErrorCode::InsufficientFunds);
    }
    match ctx.vault.debit(amount) {
        Ok(()) => {
            let request = TransferRequest {
                from: ctx.vault.token_account,
                to: ctx.user_token_account,
                authority: ctx.vault_key,
                amount,
                signer_seeds: vault_signer_seeds_of(&ctx.vault.owner, ctx.vault.bump),
            };
            let record = TransactionRecord {
                vault: ctx.vault_key,
                transaction_type: TransactionType::Withdrawal,
                amount,
                timestamp: now,
            };
            Ok((request, record))
        },
        Err(e) => Err(e),
    }
}

/// Adds `program_id` to the authorization registry. Authorizing a program
/// that is listed already changes nothing and succeeds.
pub fn authorize_program(ctx: &mut ManageAuthority, program_id: Address) -> (r: Result<
    (),
    ErrorCode,
>)
    ensures
        match programs_after_authorize(old(ctx).vault_authority.authorized_programs@, program_id) {
            Ok(programs) => r is Ok && final(ctx).vault_authority.authorized_programs@
                == programs,
            Err(e) => r == Err::<(), ErrorCode>(e) && final(ctx).vault_authority.authorized_programs@ == old(ctx).vault_authority.authorized_programs@,
        },
        r is Ok ==> final(ctx).vault_authority.authorized_programs@.contains(program_id),
        final(ctx).vault_authority.bump == old(ctx).vault_authority.bump,
        final(ctx).admin == old(ctx).admin,
        old(ctx).vault_authority.well_formed() ==> final(ctx).vault_authority.well_formed(),
{
    ctx.vault_authority.authorize(program_id)
}

/// Takes `program_id` out of the authorization registry. Revoking a program
/// that is not listed changes nothing.
pub fn revoke_program(ctx: &mut ManageAuthority, program_id: Address) -> (r: Result<
    (),
    ErrorCode,
>)
    ensures
        r is Ok,
        final(ctx).vault_authority.authorized_programs@ == programs_after_revoke(
            old(ctx).vault_authority.authorized_programs@,
            program_id,
        ),
        !final(ctx).vault_authority.authorized_programs@.contains(program_id),
        final(ctx).vault_authority.bump == old(ctx).vault_authority.bump,
        final(ctx).admin == old(ctx).admin,
        old(ctx).vault_authority.well_formed() ==> final(ctx).vault_authority.well_formed(),
{
    let _ = ctx.vault_authority.revoke(&program_id);
    Ok(())
}

/// Locks `amount` of the available funds as collateral, for a program of the
/// registry. The total does not change. A refused lock leaves the ledger as it
/// was; a caller outside the registry learns nothing about the balances.
pub fn lock_collateral(ctx: &mut LockUnlock, amount: u64, now: i64) -> (r: Result<
    TransactionRecord,
    ErrorCode,
>)
    ensures
        match spec_lock(
            old(ctx).vault,
            old(ctx).vault_authority.authorized_programs@,
            old(ctx).caller_program,
            amount,
        ) {
            Ok(vault) => r == Ok::<TransactionRecord, ErrorCode>(
                record_of(old(ctx).vault_key, TransactionType::Lock, amount, now),
            ) && *final(ctx) == (LockUnlock { vault, ..*old(ctx) }),
            Err(e) => r == Err::<TransactionRecord, ErrorCode>(e) && *final(ctx) == *old(ctx),
        },
        old(ctx).vault.balanced() ==> final(ctx).vault.balanced(),
        final(ctx).vault.total_balance == old(ctx).vault.total_balance,
        final(ctx).vault.total_deposited == old(ctx).vault.total_deposited,
        final(ctx).vault.total_withdrawn == old(ctx).vault.total_withdrawn,
{
    if !ctx.vault_authority.is_authorized(&ctx.caller_program) {
        return Err(ErrorCode::UnauthorizedProgram);
    }
    if ctx.vault.available_balance < amount {
        return Err(ErrorCode::InsufficientFunds);
    }
    match ctx.vault.move_to_locked(amount) {
        Ok(()) => Ok(
            TransactionRecord {
                vault: ctx.vault_key,
                transaction_type: TransactionType::Lock,
                amount,
                timestamp: now,
            },
        ),
        Err(e) => Err(e),
    }
}

/// Releases `amount` of the locked collateral, for a program of the registry.
/// The total does not change. A refused unlock leaves the ledger as it was.
pub fn unlock_collateral(ctx: &mut LockUnlock, amount: u64, now: i64) -> (r: Result<
    TransactionRecord,
    ErrorCode,
>)
    ensures
        match spec_unlock(
            old(ctx).vault,
            old(ctx).vault_authority.authorized_programs@,
            old(ctx).caller_program,
            amount,
        ) {
            Ok(vault) => r == Ok::<TransactionRecord, ErrorCode>(
                record_of(old(ctx).vault_key, TransactionType::Unlock, amount, now),
            ) && *final(ctx) == (LockUnlock { vault, ..*old(ctx) }),
            Err(e) => r == Err::<TransactionRecord, ErrorCode>(e) && *final(ctx) == *old(ctx),
        },
        old(ctx).vault.balanced() ==> final(ctx).vault.balanced(),
        final(ctx).vault.total_balance == old(ctx).vault.total_balance,
        final(ctx).vault.total_deposited == old(ctx).vault.total_deposited,
        final(ctx).vault.total_withdrawn == old(ctx).vault.total_withdrawn,
{
    if !ctx.vault_authority.is_authorized(&ctx.caller_program) {
        return Err(ErrorCode::UnauthorizedProgram);
    }
    if ctx.vault.locked_balance < amount {
        return Err(ErrorCode::MathError);
    }
    match ctx.vault.move_to_available(amount) {
        Ok(()) => Ok(
            TransactionRecord {
                vault: ctx.vault_key,
                transaction_type: TransactionType::Unlock,
                amount,
                timestamp: now,
            },
        ),
        Err(e) => Err(e),
    }
}

} // verus!
