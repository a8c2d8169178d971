use crate::address::Address;
use crate::ds::{fresh_vault, programs_after_authorize, CollateralVault};
use crate::{spec_deposit, spec_lock, spec_unlock, spec_withdraw, ErrorCode};
use vstd::prelude::*;

verus! {

/// One request to the ledger, with everything that decides its outcome: the
/// amount, who asks, and for a lock or an unlock the registry as it stood.
/// The first four are the bare movements of funds, the other four the
/// transitions that check who asks and what is there before they move any.
pub enum Operation {
    Credit { amount: u64 },
    Debit { amount: u64 },
    MoveToLocked { amount: u64 },
    MoveToAvailable { amount: u64 },
    Deposit { amount: u64 },
    Withdraw { caller: Address, amount: u64 },
    Lock { programs: Seq<Address>, caller: Address, amount: u64 },
    Unlock { programs: Seq<Address>, caller: Address, amount: u64 },
}

/// What `op` answers on `vault`: the new ledger, or the refusal.
pub open spec fn outcome(vault: CollateralVault, op: Operation) -> Result<
    CollateralVault,
    ErrorCode,
> {
    match op {
        Operation::Credit { amount } => vault.after_credit(amount),
        Operation::Debit { amount } => vault.after_debit(amount),
        Operation::MoveToLocked { amount } => vault.after_move_to_locked(amount),
        Operation::MoveToAvailable { amount } => vault.after_move_to_available(amount),
        Operation::Deposit { amount } => spec_deposit(vault, amount),
        Operation::Withdraw { caller, amount } => spec_withdraw(vault, caller, amount),
        Operation::Lock { programs, caller, amount } => spec_lock(vault, programs, caller, amount),
        Operation::Unlock { programs, caller, amount } => spec_unlock(
            vault,
            programs,
            caller,
            amount,
        ),
    }
}

/// The ledger after `op`: changed where `op` succeeds, as it was where `op`
/// is refused.
pub open spec fn step(vault: CollateralVault, op: Operation) -> CollateralVault {
    match outcome(vault, op) {
        Ok(next) => next,
        Err(_) => vault,
    }
}

/// The ledger after the requests `ops`, made in order.
pub open spec fn run(vault: CollateralVault, ops: Seq<Operation>) -> CollateralVault
    decreases ops.len(),
{
    if ops.len() == 0 {
        vault
    } else {
        step(run(vault, ops.drop_last()), ops.last())
    }
}

/// A ledger is reachable if some sequence of requests leads to it from a
/// newly created ledger.
pub open spec fn reachable(vault: CollateralVault) -> bool {
    exists|start: CollateralVault, ops: Seq<Operation>|
        newly_created(start) && vault == #[trigger] run(start, ops)
}

/// A ledger as initialization leaves it: all balances and counters at zero.
pub open spec fn newly_created(vault: CollateralVault) -> bool {
    vault == fresh_vault(vault.owner, vault.token_account, vault.bump, vault.created_at)
}

/// The registry after a call of `authorize`, whether it succeeded or not.
pub open spec fn programs_once_authorized(programs: Seq<Address>, caller: Address) -> Seq<
    Address,
> {
    match programs_after_authorize(programs, caller) {
        Ok(next) => next,
        Err(_) => programs,
    }
}

/// One request, granted or refused, keeps the split of the total into locked
/// and available, never lowers a lifetime counter, and leaves the ledger's
/// owner, custody account, creation time and bump seed alone.
pub proof fn lemma_step_preserves(vault: CollateralVault, op: Operation)
    ensures
        vault.balanced() ==> step(vault, op).balanced(),
        step(vault, op).total_deposited >= vault.total_deposited,
        step(vault, op).total_withdrawn >= vault.total_withdrawn,
        step(vault, op).same_identity(vault),
{
}

/// A sequence of requests on a ledger whose total is the sum of its parts
/// leaves a ledger whose total is the sum of its parts.
pub proof fn lemma_run_keeps_balance(vault: CollateralVault, ops: Seq<Operation>)
    requires
        vault.balanced(),
    ensures
        run(vault, ops).balanced(),
        run(vault, ops).parts_within_total(),
    decreases ops.len(),
{
    if ops.len() > 0 {
        lemma_run_keeps_balance(vault, ops.drop_last());
        lemma_step_preserves(run(vault, ops.drop_last()), ops.last());
    }
}

/// In every reachable ledger the total is exactly the locked plus the
/// available balance, and neither part exceeds the total.
pub proof fn lemma_reachable_is_balanced(vault: CollateralVault)
    requires
        reachable(vault),
    ensures
        vault.total_balance == vault.locked_balance + vault.available_balance,
        vault.locked_balance <= vault.total_balance,
        vault.available_balance <= vault.total_balance,
{
    let (start, ops) = choose|start: CollateralVault, ops: Seq<Operation>|
        newly_created(start) && vault == #[trigger] run(start, ops);
    lemma_run_keeps_balance(start, ops);
}

/// Over any sequence of requests, on any ledger, neither the deposit counter
/// nor the withdrawal counter decreases.
pub proof fn lemma_counters_never_decrease(vault: CollateralVault, ops: Seq<Operation>)
    ensures
        run(vault, ops).total_deposited >= vault.total_deposited,
        run(vault, ops).total_withdrawn >= vault.total_withdrawn,
    decreases ops.len(),
{
    if ops.len() > 0 {
        lemma_counters_never_decrease(vault, ops.drop_last());
        lemma_step_preserves(run(vault, ops.drop_last()), ops.last());
    }
}

/// Between any two points of a sequence of requests the counters do not
/// decrease.
pub proof fn lemma_counters_monotonic_between(
    vault: CollateralVault,
    ops: Seq<Operation>,
    earlier: int,
    later: int,
)
    requires
        0 <= earlier <= later <= ops.len(),
    ensures
        run(vault, ops.take(later)).total_deposited >= run(
            vault,
            ops.take(earlier),
        ).total_deposited,
        run(vault, ops.take(later)).total_withdrawn >= run(
            vault,
            ops.take(earlier),
        ).total_withdrawn,
    decreases later - earlier,
{
    if earlier < later {
        lemma_counters_monotonic_between(vault, ops, earlier, later - 1);
        assert(ops.take(later).drop_last() =~= ops.take(later - 1));
        lemma_step_preserves(run(vault, ops.take(later - 1)), ops.take(later).last());
    }
}

/// No sequence of requests changes whose ledger it is, which custody account
/// it mirrors, when it was created or with which bump seed it signs.
pub proof fn lemma_identity_is_immutable(vault: CollateralVault, ops: Seq<Operation>)
    ensures
        run(vault, ops).same_identity(vault),
    decreases ops.len(),
{
    if ops.len() > 0 {
        lemma_identity_is_immutable(vault, ops.drop_last());
        lemma_step_preserves(run(vault, ops.drop_last()), ops.last());
    }
}

/// A caller outside the registry is refused as such, whatever the balances:
/// a lock or an unlock that is both unauthorized and too large fails with
/// `UnauthorizedProgram`, never with `InsufficientFunds` or `MathError`.
pub proof fn lemma_authorization_is_checked_first(
    vault: CollateralVault,
    programs: Seq<Address>,
    caller: Address,
    amount: u64,
)
    requires
        !programs.contains(caller),
    ensures
        spec_lock(vault, programs, caller, amount) == Err::<CollateralVault, ErrorCode>(
            ErrorCode::UnauthorizedProgram,
        ),
        spec_unlock(vault, programs, caller, amount) == Err::<CollateralVault, ErrorCode>(
            ErrorCode::UnauthorizedProgram,
        ),
{
}

/// Someone who is not the owner is refused as such, whatever the balances.
pub proof fn lemma_ownership_is_checked_first(
    vault: CollateralVault,
    caller: Address,
    amount: u64,
)
    requires
        caller != vault.owner,
    ensures
        spec_withdraw(vault, caller, amount) == Err::<CollateralVault, ErrorCode>(
            ErrorCode::Unauthorized,
        ),
{
}

/// Authorizing the same program twice leaves the registry as authorizing it
/// once does.
pub proof fn lemma_authorize_is_idempotent(programs: Seq<Address>, caller: Address)
    ensures
        programs_once_authorized(programs_once_authorized(programs, caller), caller)
            == programs_once_authorized(programs, caller),
        programs_once_authorized(programs_once_authorized(programs, caller), caller).to_set()
            == programs_once_authorized(programs, caller).to_set(),
{
    let once = programs_once_authorized(programs, caller);
    if !programs.contains(caller) && programs.len() < crate::ds::MAX_AUTHORIZED_PROGRAMS {
        assert(once == programs.push(caller));
        assert(once[once.len() - 1] == caller);
        assert(once.contains(caller));
    }
}

/// On a ledger whose total is the sum of its parts, a lock or an unlock that
/// passes its checks cannot run into an arithmetic error, and a withdrawal
/// cannot underflow.
pub proof fn lemma_balanced_arithmetic_is_safe(
    vault: CollateralVault,
    programs: Seq<Address>,
    caller: Address,
    amount: u64,
)
    requires
        vault.balanced(),
    ensures
        spec_lock(vault, programs, caller, amount) is Ok <==> (programs.contains(caller)
            && amount <= vault.available_balance),
        spec_unlock(vault, programs, caller, amount) is Ok <==> (programs.contains(caller)
            && amount <= vault.locked_balance),
        spec_withdraw(vault, caller, amount) is Err ==> spec_withdraw(vault, caller, amount)
            != Err::<CollateralVault, ErrorCode>(ErrorCode::Underflow),
{
}

} // verus!
