use crate::address::Address;
use crate::ErrorCode;
use vstd::prelude::*;

verus! {

/// The ledger of one depositor: how much the custody account holds on the
/// depositor's behalf, and how that total splits into collateral that is
/// locked against obligations and funds that are still available.
#[derive(Clone, Copy, Debug, PartialEq, Eq)]
pub struct CollateralVault {
    /// The depositor, who alone may withdraw.
    pub owner: Address,
    /// The custody account that holds the funds this ledger records.
    pub token_account: Address,
    pub total_balance: u64,
    pub locked_balance: u64,
    pub available_balance: u64,
    /// Everything ever deposited; never decreases.
    pub total_deposited: u64,
    /// Everything ever withdrawn; never decreases.
    pub total_withdrawn: u64,
    pub created_at: i64,
    /// Bump seed of the ledger's derived signing authority.
    pub bump: u8,
}

impl CollateralVault {
    /// The total is split exactly into locked and available funds.
    pub open spec fn balanced(&self) -> bool {
        self.total_balance == self.locked_balance + self.available_balance
    }

    /// Neither part exceeds the total.
    pub open spec fn parts_within_total(&self) -> bool {
        self.locked_balance <= self.total_balance && self.available_balance
            <= self.total_balance
    }

    /// Same depositor, custody account, creation time and bump seed.
    pub open spec fn same_identity(&self, other: CollateralVault) -> bool {
        &&& self.owner == other.owner
        &&& self.token_account == other.token_account
        &&& self.created_at == other.created_at
        &&& self.bump == other.bump
    }

    /// The ledger after `amount` has been added to the total, to the available
    /// funds and to the deposit counter, or the error if one of them would
    /// leave the range of `u64`.
    pub open spec fn after_credit(self, amount: u64) -> Result<CollateralVault, ErrorCode> {
        if self.total_balance + amount > u64::MAX || self.available_balance + amount > u64::MAX
            || self.total_deposited + amount > u64::MAX {
            Err(ErrorCode::Overflow)
        } else {
            Ok(
                CollateralVault {
                    total_balance: (self.total_balance + amount) as u64,
                    available_balance: (self.available_balance + amount) as u64,
                    total_deposited: (self.total_deposited + amount) as u64,
                    ..self
                },
            )
        }
    }

    /// The ledger after `amount` has been taken from the total and from the
    /// available funds and added to the withdrawal counter.
    pub open spec fn after_debit(self, amount: u64) -> Result<CollateralVault, ErrorCode> {
        if self.total_balance < amount || self.available_balance < amount {
            Err(ErrorCode::Underflow)
        } else if self.total_withdrawn + amount > u64::MAX {
            Err(ErrorCode::Overflow)
        } else {
            Ok(
                CollateralVault {
                    total_balance: (self.total_balance - amount) as u64,
                    available_balance: (self.available_balance - amount) as u64,
                    total_withdrawn: (self.total_withdrawn + amount) as u64,
                    ..self
                },
            )
        }
    }

    /// The ledger after `amount` has moved from available to locked.
    pub open spec fn after_move_to_locked(self, amount: u64) -> Result<
        CollateralVault,
        ErrorCode,
    > {
        if self.available_balance < amount {
            Err(ErrorCode::Underflow)
        } else if self.locked_balance + amount > u64::MAX {
            Err(ErrorCode::Overflow)
        } else {
            Ok(
                CollateralVault {
                    available_balance: (self.available_balance - amount) as u64,
                    locked_balance: (self.locked_balance + amount) as u64,
                    ..self
                },
            )
        }
    }

    /// The ledger after `amount` has moved from locked back to available.
    pub open spec fn after_move_to_available(self, amount: u64) -> Result<
        CollateralVault,
        ErrorCode,
    > {
        if self.locked_balance < amount {
            Err(ErrorCode::Underflow)
        } else if self.available_balance + amount > u64::MAX {
            Err(ErrorCode::Overflow)
        } else {
            Ok(
                CollateralVault {
                    locked_balance: (self.locked_balance - amount) as u64,
                    available_balance: (self.available_balance + amount) as u64,
                    ..self
                },
            )
        }
    }

    /// A new ledger for `owner`, mirroring `token_account`, with every balance
    /// and counter at zero.
    pub fn new(owner: Address, token_account: Address, bump: u8, created_at: i64) -> (v:
        CollateralVault)
        ensures
            v == fresh_vault(owner, token_account, bump, created_at),
    {
        CollateralVault {
            owner,
            token_account,
            total_balance: 0,
            locked_balance: 0,
            available_balance: 0,
            total_deposited: 0,
            total_withdrawn: 0,
            created_at,
            bump,
        }
    }

    /// Adds `amount` to the total, to the available funds and to the deposit
    /// counter. If any of the three sums leaves `u64`, nothing changes.
    pub fn credit(&mut self, amount: u64) -> (r: Result<(), ErrorCode>)
        ensures
            match old(self).after_credit(amount) {
                Ok(v) => r is Ok && *final(self) == v,
                Err(e) => r == Err::<(), ErrorCode>(e) && *final(self) == *old(self),
            },
            old(self).balanced() ==> final(self).balanced(),
    {
        let total = match self.total_balance.checked_add(amount) {
            Some(t) => t,
            None => { return Err(ErrorCode::Overflow); },
        };
        let available = match self.available_balance.checked_add(amount) {
            Some(a) => a,
            None => { return Err(ErrorCode::Overflow); },
        };
        let deposited = match self.total_deposited.checked_add(amount) {
            Some(d) => d,
            None => { return Err(ErrorCode::Overflow); },
        };
        self.total_balance = total;
        self.available_balance = available;
        self.total_deposited = deposited;
        Ok(())
    }

    /// Takes `amount` from the total and from the available funds and adds it
    /// to the withdrawal counter. If a difference would be negative or the sum
    /// leaves `u64`, nothing changes.
    pub fn debit(&mut self, amount: u64) -> (r: Result<(), ErrorCode>)
        ensures
            match old(self).after_debit(amount) {
                Ok(v) => r is Ok && *final(self) == v,
                Err(e) => r == Err::<(), ErrorCode>(e) && *final(self) == *old(self),
            },
            old(self).balanced() ==> final(self).balanced(),
    {
        let total = match self.total_balance.checked_sub(amount) {
            Some(t) => t,
            None => { return Err(ErrorCode::Underflow); },
        };
        let available = match self.available_balance.checked_sub(amount) {
            Some(a) => a,
            None => { return Err(ErrorCode::Underflow); },
        };
        let withdrawn = match self.total_withdrawn.checked_add(amount) {
            Some(w) => w,
            None => { return Err(ErrorCode::Overflow); },
        };
        self.total_balance = total;
        self.available_balance = available;
        self.total_withdrawn = withdrawn;
        Ok(())
    }

    /// Moves `amount` from the available funds to the locked collateral; the
    /// total stays. On underflow or overflow nothing changes.
    pub fn move_to_locked(&mut self, amount: u64) -> (r: Result<(), ErrorCode>)
        ensures
            match old(self).after_move_to_locked(amount) {
                Ok(v) => r is Ok && *final(self) == v,
                Err(e) => r == Err::<(), ErrorCode>(e) && *final(self) == *old(self),
            },
            old(self).balanced() ==> final(self).balanced(),
    {
        let available = match self.available_balance.checked_sub(amount) {
            Some(a) => a,
            None => { return Err(ErrorCode::Underflow); },
        };
        let locked = match self.locked_balance.checked_add(amount) {
            Some(l) => l,
            None => { return Err(ErrorCode::Overflow); },
        };
        self.available_balance = available;
        self.locked_balance = locked;
        Ok(())
    }

    /// Moves `amount` from the locked collateral back to the available funds;
    /// the total stays. On underflow or overflow nothing changes.
    pub fn move_to_available(&mut self, amount: u64) -> (r: Result<(), ErrorCode>)
        ensures
            match old(self).after_move_to_available(amount) {
                Ok(v) => r is Ok && *final(self) == v,
                Err(e) => r == Err::<(), ErrorCode>(e) && *final(self) == *old(self),
            },
            old(self).balanced() ==> final(self).balanced(),
    {
        let locked = match self.locked_balance.checked_sub(amount) {
            Some(l) => l,
            None => { return Err(ErrorCode::Underflow); },
        };
        let available = match self.available_balance.checked_add(amount) {
            Some(a) => a,
            None => { return Err(ErrorCode::Overflow); },
        };
        self.locked_balance = locked;
        self.available_balance = available;
        Ok(())
    }
}

/// The ledger that initialization creates.
pub open spec fn fresh_vault(owner: Address, token_account: Address, bump: u8, created_at: i64)
    -> CollateralVault {
    CollateralVault {
        owner,
        token_account,
        total_balance: 0,
        locked_balance: 0,
        available_balance: 0,
        total_deposited: 0,
        total_withdrawn: 0,
        created_at,
        bump,
    }
}


/// How many programs the authorization registry has room for.
pub const MAX_AUTHORIZED_PROGRAMS: usize = 5;

/// The authorization registry: the programs that may lock and unlock the
/// collateral of any ledger. One flat list, shared by all ledgers.
#[derive(Clone, Debug, PartialEq, Eq)]
pub struct VaultAuthority {
    pub authorized_programs: Vec<Address>,
    pub bump: u8,
}

/// The predicate "is not `caller`".
pub open spec fn other_than(caller: Address) -> spec_fn(Address) -> bool {
    |a: Address| a != caller
}

/// The list after `caller` has been authorized: unchanged where `caller` is
/// listed already, else with `caller` at its end, unless the list is full.
pub open spec fn programs_after_authorize(programs: Seq<Address>, caller: Address) -> Result<
    Seq<Address>,
    ErrorCode,
> {
    if programs.contains(caller) {
        Ok(programs)
    } else if programs.len() >= MAX_AUTHORIZED_PROGRAMS {
        Err(ErrorCode::RegistryFull)
    } else {
        Ok(programs.push(caller))
    }
}

/// The list after `caller` has been revoked: the other programs, in order.
pub open spec fn programs_after_revoke(programs: Seq<Address>, caller: Address) -> Seq<Address> {
    programs.filter(other_than(caller))
}

/// Revoking removes `caller` and nobody else, and keeps a list free of
/// duplicates so.
pub proof fn lemma_revoke_membership(programs: Seq<Address>, caller: Address)
    ensures
        forall|a: Address|
            #![trigger programs_after_revoke(programs, caller).contains(a)]
            #![trigger programs.contains(a)]
            programs_after_revoke(programs, caller).contains(a) <==> (programs.contains(a) && a
                != caller),
        programs_after_revoke(programs, caller).len() <= programs.len(),
        programs.no_duplicates() ==> programs_after_revoke(programs, caller).no_duplicates(),
    decreases programs.len(),
{
    reveal(Seq::filter);
    let pred = other_than(caller);
    let out = programs_after_revoke(programs, caller);
    if programs.len() > 0 {
        let rest = programs.drop_last();
        let last = programs.last();
        lemma_revoke_membership(rest, caller);
        let sub = programs_after_revoke(rest, caller);
        assert(out == if pred(last) {
            sub.push(last)
        } else {
            sub
        });
        assert forall|a: Address| out.contains(a) <==> (programs.contains(a) && a
            != caller) by {
            if out.contains(a) {
                let i = choose|i: int| 0 <= i < out.len() && out[i] == a;
                if pred(last) && i == out.len() - 1 {
                    assert(programs[programs.len() - 1] == a);
                } else {
                    assert(sub[i] == a);
                    assert(sub.contains(a));
                    assert(rest.contains(a) && a != caller);
                    let j = choose|j: int| 0 <= j < rest.len() && rest[j] == a;
                    assert(programs[j] == a);
                }
            }
            if programs.contains(a) && a != caller {
                let j = choose|j: int| 0 <= j < programs.len() && programs[j] == a;
                if j == programs.len() - 1 {
                    assert(out[out.len() - 1] == a);
                } else {
                    assert(rest[j] == a);
                    assert(rest.contains(a));
                    let i = choose|i: int| 0 <= i < sub.len() && sub[i] == a;
                    assert(out[i] == a);
                }
            }
        }
        if programs.no_duplicates() {
            assert(rest.no_duplicates());
            if pred(last) {
                assert(!rest.contains(last)) by {
                    if rest.contains(last) {
                        let j = choose|j: int| 0 <= j < rest.len() && rest[j] == last;
                        assert(programs[j] == programs[programs.len() - 1]);
                    }
                }
                assert(!sub.contains(last));
                assert forall|i: int, j: int| 0 <= i < out.len() && 0 <= j < out.len() && i
                    != j implies out[i] != out[j] by {
                    if i == out.len() - 1 {
                        assert(sub[j] == out[j]);
                        assert(sub.contains(out[j]));
                    } else if j == out.len() - 1 {
                        assert(sub[i] == out[i]);
                        assert(sub.contains(out[i]));
                    } else {
                        assert(sub[i] == out[i] && sub[j] == out[j]);
                    }
                }
            }
        }
    }
}

impl VaultAuthority {
    /// The programs that are authorized, as a set.
    pub open spec fn members(&self) -> Set<Address> {
        self.authorized_programs@.to_set()
    }

    /// No program is listed twice, and the list fits the registry.
    pub open spec fn well_formed(&self) -> bool {
        &&& self.authorized_programs@.no_duplicates()
        &&& self.authorized_programs@.len() <= MAX_AUTHORIZED_PROGRAMS
    }

    /// An empty registry.
    pub fn new(bump: u8) -> (r: VaultAuthority)
        ensures
            r.authorized_programs@ == Seq::<Address>::empty(),
            r.bump == bump,
            r.well_formed(),
    {
        VaultAuthority { authorized_programs: Vec::new(), bump }
    }

    /// Whether `caller` may lock and unlock collateral.
    pub fn is_authorized(&self, caller: &Address) -> (r: bool)
        ensures
            r == self.authorized_programs@.contains(*caller),
    {
        let n = self.authorized_programs.len();
        let mut i: usize = 0;
        while i < n
            invariant
                i <= n,
                n == self.authorized_programs@.len(),
                forall|j: int| 0 <= j < i ==> self.authorized_programs@[j] != *caller,
            decreases n - i,
        {
            if self.authorized_programs[i].same_as(caller) {
                return true;
            }
            i = i + 1;
        }
        false
    }

    /// Adds `caller` to the registry. A program that is listed already is left
    /// where it is, whether or not the registry is full; a new one is refused
    /// when there is no room.
    pub fn authorize(&mut self, caller: Address) -> (r: Result<(), ErrorCode>)
        ensures
            match programs_after_authorize(old(self).authorized_programs@, caller) {
                Ok(programs) => r is Ok && final(self).authorized_programs@ == programs,
                Err(e) => r == Err::<(), ErrorCode>(e) && final(self).authorized_programs@ == old(self).authorized_programs@,
            },
            final(self).bump == old(self).bump,
            r is Ok ==> final(self).authorized_programs@.contains(caller),
            r is Ok ==> final(self).members() == old(self).members().insert(caller),
            old(self).well_formed() ==> final(self).well_formed(),
    {
        if self.is_authorized(&caller) {
            proof {
                assert(self.members() =~= self.members().insert(caller));
            }
            return Ok(());
        }
        if self.authorized_programs.len() >= MAX_AUTHORIZED_PROGRAMS {
            return Err(ErrorCode::RegistryFull);
        }
        let ghost before = self.authorized_programs@;
        self.authorized_programs.push(caller);
        proof {
            let after = self.authorized_programs@;
            assert(after[after.len() - 1] == caller);
            assert forall|a: Address| after.contains(a) <==> (before.contains(a) || a
                == caller) by {
                if after.contains(a) {
                    let i = choose|i: int| 0 <= i < after.len() && after[i] == a;
                    if i < before.len() {
                        assert(before[i] == a);
                    }
                }
                if before.contains(a) {
                    let i = choose|i: int| 0 <= i < before.len() && before[i] == a;
                    assert(after[i] == a);
                }
            }
            assert(after.to_set() =~= before.to_set().insert(caller));
            if before.no_duplicates() {
                assert forall|i: int, j: int| 0 <= i < after.len() && 0 <= j < after.len() && i
                    != j implies after[i] != after[j] by {
                    if i == after.len() - 1 {
                        assert(before[j] == after[j]);
                        assert(before.contains(after[j]));
                    } else if j == after.len() - 1 {
                        assert(before[i] == after[i]);
                        assert(before.contains(after[i]));
                    }
                }
            }
        }
        Ok(())
    }

    /// Takes `caller` out of the registry, and says whether it was listed.
    pub fn revoke(&mut self, caller: &Address) -> (was_listed: bool)
        ensures
            final(self).authorized_programs@ == programs_after_revoke(
                old(self).authorized_programs@,
                *caller,
            ),
            was_listed == old(self).authorized_programs@.contains(*caller),
            !final(self).authorized_programs@.contains(*caller),
            final(self).members() == old(self).members().remove(*caller),
            final(self).bump == old(self).bump,
            old(self).well_formed() ==> final(self).well_formed(),
    {
        let ghost before = self.authorized_programs@;
        let ghost pred = other_than(*caller);
        let n = self.authorized_programs.len();
        let mut kept: Vec<Address> = Vec::new();
        let mut was_listed = false;
        let mut i: usize = 0;
        proof {
            reveal(Seq::filter);
            assert(before.take(0).filter(pred) =~= Seq::<Address>::empty());
        }
        while i < n
            invariant
                i <= n,
                n == before.len(),
                before == self.authorized_programs@,
                pred == other_than(*caller),
                kept@ == before.take(i as int).filter(pred),
                was_listed == before.take(i as int).contains(*caller),
            decreases n - i,
        {
            let a = self.authorized_programs[i];
            proof {
                reveal(Seq::filter);
                let next = before.take(i + 1);
                assert(next.drop_last() =~= before.take(i as int));
                assert(next.last() == a);
                assert(next.contains(*caller) <==> (before.take(i as int).contains(*caller) || a
                    == *caller)) by {
                    if next.contains(*caller) {
                        let k = choose|k: int| 0 <= k < next.len() && next[k] == *caller;
                        if k < i {
                            assert(before.take(i as int)[k] == *caller);
                        }
                    }
                    if before.take(i as int).contains(*caller) {
                        let k = choose|k: int|
                            0 <= k < before.take(i as int).len() && before.take(i as int)[k]
                                == *caller;
                        assert(next[k] == *caller);
                    }
                    if a == *caller {
                        assert(next[i as int] == *caller);
                    }
                }
            }
            if a.same_as(caller) {
                was_listed = true;
            } else {
                kept.push(a);
            }
            i = i + 1;
        }
        proof {
            assert(before.take(n as int) =~= before);
            lemma_revoke_membership(before, *caller);
            assert(kept@.to_set() =~= before.to_set().remove(*caller));
        }
        self.authorized_programs = kept;
        was_listed
    }
}

/// What a transaction record reports.
#[derive(Clone, Copy, Debug, PartialEq, Eq)]
pub enum TransactionType {
    Deposit,
    Withdrawal,
    Lock,
    Unlock,
    Transfer,
}

/// The record of one successful transition, handed to whoever observes the
/// ledger. It is not part of the ledger's own state.
#[derive(Clone, Copy, Debug, PartialEq, Eq)]
pub struct TransactionRecord {
    pub vault: Address,
    pub transaction_type: TransactionType,
    pub amount: u64,
    pub timestamp: i64,
}


/// A transfer that the custody layer is asked to make. The ledger decides
/// what is moved and who authorizes it; the custody layer moves it.
#[derive(Clone, Debug, PartialEq, Eq)]
pub struct TransferRequest {
    pub from: Address,
    pub to: Address,
    /// Who authorizes the transfer: the depositor for a deposit, the ledger
    /// itself for a withdrawal.
    pub authority: Address,
    pub amount: u64,
    /// The seeds with which the ledger signs; empty where the depositor
    /// signs.
    pub signer_seeds: Vec<Vec<u8>>,
}

} // verus!
