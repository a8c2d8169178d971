use crate::address::Address;
use crate::pda::{
    derive_token_vault_address, derive_vault_address, program_address, token_vault_seeds,
    vault_seeds,
};
use vstd::bytes::{spec_u64_from_le_bytes, spec_u64_to_le_bytes, u64_to_le_bytes};
use vstd::prelude::*;
use vstd::slice::slice_subrange;
use vstd::string::StringSliceAdditionalSpecFns;

verus! {

/// The identity of the ledger program, in base 58.
pub const PROGRAM_ID: &'static str = "FBN2vp46nz2C3PFcfDLr5uaZPUCi4eiFGJxSEBovQRMV";

/// Seconds between two rounds of the monitor.
pub const MONITOR_INTERVAL_SECS: u64 = 10;

/// Bytes that the hosting store puts before a stored ledger.
pub const DISCRIMINATOR_LEN: usize = 8;

/// Bytes of a stored ledger that the reconciler reads: two identities and
/// three balances.
pub const VAULT_STATE_LEN: usize = 88;

/// Why the client side could not do what it was asked.
#[derive(Clone, Copy, Debug, PartialEq, Eq)]
pub enum BackendError {
    /// The program's identity is not the base 58 form of thirty-two bytes.
    InvalidProgramId,
    /// The seeds give no program-derived address.
    NoProgramAddress,
    /// The stored ledger is shorter than the tag that precedes it.
    MissingDiscriminator,
    /// The stored ledger ends before its last balance.
    UnexpectedLength,
    /// The custody balance is not a decimal number that fits `u64`.
    InvalidAmount,
    /// The custody layer or the ledger store could not be reached. This is
    /// not a discrepancy: nothing was compared.
    Transport,
}

/// One account that an instruction names.
#[derive(Clone, Copy, Debug, PartialEq, Eq)]
pub struct AccountMeta {
    pub pubkey: Address,
    pub is_signer: bool,
    pub is_writable: bool,
}

/// An instruction for the ledger program, ready to be put in a transaction.
#[derive(Clone, Debug, PartialEq, Eq)]
pub struct Instruction {
    pub program_id: Address,
    pub accounts: Vec<AccountMeta>,
    pub data: Vec<u8>,
}

/// The part of a stored ledger that the reconciler reads.
#[derive(Clone, Copy, Debug, PartialEq, Eq)]
pub struct CollateralVaultState {
    pub owner: Address,
    pub token_account: Address,
    pub total_balance: u64,
    pub locked_balance: u64,
    pub available_balance: u64,
}

/// What one comparison of a ledger with its custody account found.
#[derive(Clone, Copy, Debug, PartialEq, Eq)]
pub struct ReconciliationResult {
    pub ledger_ref: Address,
    pub ledger_total: u64,
    pub custody_total: u64,
    pub is_consistent: bool,
}

/// Whether `data` is long enough to hold the tag and the state behind it.
pub open spec fn holds_vault_state(data: Seq<u8>) -> bool {
    data.len() >= DISCRIMINATOR_LEN + VAULT_STATE_LEN
}

/// Whether `state` is what the stored bytes `data` say: behind the tag the
/// owner, the custody account, and the total, locked and available balances
/// as little-endian numbers, in this order. Bytes after them are not read.
pub open spec fn is_vault_state_of(state: CollateralVaultState, data: Seq<u8>) -> bool {
    &&& state.owner@ == data.subrange(8, 40)
    &&& state.token_account@ == data.subrange(40, 72)
    &&& state.total_balance == spec_u64_from_le_bytes(data.subrange(72, 80))
    &&& state.locked_balance == spec_u64_from_le_bytes(data.subrange(80, 88))
    &&& state.available_balance == spec_u64_from_le_bytes(data.subrange(88, 96))
}

/// The error with which stored bytes that hold no state are refused.
pub open spec fn vault_state_error(data: Seq<u8>) -> BackendError {
    if data.len() < DISCRIMINATOR_LEN {
        BackendError::MissingDiscriminator
    } else {
        BackendError::UnexpectedLength
    }
}

/// At most one state is what given bytes say.
pub proof fn lemma_vault_state_is_unique(
    a: CollateralVaultState,
    b: CollateralVaultState,
    data: Seq<u8>,
)
    requires
        is_vault_state_of(a, data),
        is_vault_state_of(b, data),
    ensures
        a == b,
{
    crate::address::lemma_address_eq_view(a.owner, b.owner);
    crate::address::lemma_address_eq_view(a.token_account, b.token_account);
}

/// Trusted: `borsh::from_slice::<u64>`. The contract claims that exactly
/// eight bytes are accepted and read as a little-endian number, and that any
/// other length is refused.
#[verifier::external_body]
fn borsh_u64(bytes: &[u8]) -> (r: Option<u64>)
    ensures
        bytes@.len() == 8 ==> r == Some(spec_u64_from_le_bytes(bytes@)),
        bytes@.len() != 8 ==> r is None,
{
    borsh::from_slice::<u64>(bytes).ok()
}

/// Trusted: `borsh::from_slice::<solana_sdk::pubkey::Pubkey>`. The contract
/// claims that exactly thirty-two bytes are accepted and taken as they are,
/// and that any other length is refused.
#[verifier::external_body]
fn borsh_address(bytes: &[u8]) -> (r: Option<Address>)
    ensures
        bytes@.len() == 32 ==> r is Some && r.unwrap()@ == bytes@,
        bytes@.len() != 32 ==> r is None,
{
    borsh::from_slice::<solana_sdk::pubkey::Pubkey>(bytes).ok().map(
        |key| Address { bytes: key.to_bytes() },
    )
}

/// Reads ledgers out of the hosting store's bytes and compares them with
/// what the custody layer reports.
#[derive(Clone, Copy, Debug, PartialEq, Eq)]
pub struct BalanceTracker;

impl BalanceTracker {
    pub fn new() -> (tracker: BalanceTracker) {
        BalanceTracker
    }

    /// The state that the stored bytes `account_data` hold behind their tag.
    pub fn get_vault_state(&self, account_data: &[u8]) -> (r: Result<
        CollateralVaultState,
        BackendError,
    >)
        ensures
            holds_vault_state(account_data@) ==> r is Ok && is_vault_state_of(
                r.unwrap(),
                account_data@,
            ),
            !holds_vault_state(account_data@) ==> r == Err::<CollateralVaultState, BackendError>(
                vault_state_error(account_data@),
            ),
    {
        if account_data.len() < DISCRIMINATOR_LEN {
            return Err(BackendError::MissingDiscriminator);
        }
        if account_data.len() < DISCRIMINATOR_LEN + VAULT_STATE_LEN {
            return Err(BackendError::UnexpectedLength);
        }
        let owner = borsh_address(slice_subrange(account_data, 8, 40));
        let token_account = borsh_address(slice_subrange(account_data, 40, 72));
        let total_balance = borsh_u64(slice_subrange(account_data, 72, 80));
        let locked_balance = borsh_u64(slice_subrange(account_data, 80, 88));
        let available_balance = borsh_u64(slice_subrange(account_data, 88, 96));
        match (owner, token_account, total_balance, locked_balance, available_balance) {
            (Some(owner), Some(token_account), Some(total), Some(locked), Some(available)) => Ok(
                CollateralVaultState {
                    owner,
                    token_account,
                    total_balance: total,
                    locked_balance: locked,
                    available_balance: available,
                },
            ),
            _ => Err(BackendError::UnexpectedLength),
        }
    }
}


/// Whether `b` is one of the characters `0` to `9`.
pub open spec fn is_decimal_digit(b: u8) -> bool {
    48 <= b && b <= 57
}

/// Whether every byte of `digits` is a decimal digit.
pub open spec fn all_decimal_digits(digits: Seq<u8>) -> bool {
    forall|i: int| 0 <= i < digits.len() ==> is_decimal_digit(#[trigger] digits[i])
}

/// The number that the decimal digits `digits` write.
pub open spec fn decimal_value(digits: Seq<u8>) -> nat
    decreases digits.len(),
{
    if digits.len() == 0 {
        0
    } else {
        decimal_value(digits.drop_last()) * 10 + (digits.last() as int - 48) as nat
    }
}

/// The digits of an amount: the text without one leading `+`.
pub open spec fn amount_digits(text: Seq<u8>) -> Seq<u8> {
    if text.len() > 0 && text[0] == 43 {
        text.skip(1)
    } else {
        text
    }
}

/// The amount that `text` writes: at least one decimal digit, after at most
/// one `+`, with a value that fits `u64`. Anything else writes no amount.
pub open spec fn spec_parse_amount(text: Seq<u8>) -> Option<u64> {
    let digits = amount_digits(text);
    if digits.len() > 0 && all_decimal_digits(digits) && decimal_value(digits) <= u64::MAX {
        Some(decimal_value(digits) as u64)
    } else {
        None
    }
}

/// The digits read so far never write more than all the digits do.
proof fn lemma_decimal_prefix_le(digits: Seq<u8>, k: int)
    requires
        0 <= k <= digits.len(),
    ensures
        decimal_value(digits.take(k)) <= decimal_value(digits),
    decreases digits.len(),
{
    if k == digits.len() {
        assert(digits.take(k) =~= digits);
    } else {
        lemma_decimal_prefix_le(digits.drop_last(), k);
        assert(digits.drop_last().take(k) =~= digits.take(k));
    }
}

/// Reads the custody balance as the custody layer reports it: a decimal
/// number in text.
pub fn parse_token_amount(amount: &str) -> (r: Result<u64, BackendError>)
    ensures
        match spec_parse_amount(amount.spec_bytes()) {
            Some(value) => r == Ok::<u64, BackendError>(value),
            None => r == Err::<u64, BackendError>(BackendError::InvalidAmount),
        },
{
    let bytes = amount.as_bytes();
    let n = bytes.len();
    let start: usize = if n > 0 && bytes[0] == 43 {
        1
    } else {
        0
    };
    if start == n {
        return Err(BackendError::InvalidAmount);
    }
    let ghost digits = amount_digits(bytes@);
    let mut value: u64 = 0;
    let mut i: usize = start;
    assert(digits.take(0) =~= Seq::<u8>::empty());
    while i < n
        invariant
            start <= i <= n,
            n == bytes@.len(),
            bytes@ == amount.spec_bytes(),
            digits == bytes@.skip(start as int),
            digits == amount_digits(bytes@),
            all_decimal_digits(digits.take(i - start)),
            value == decimal_value(digits.take(i - start)),
        decreases n - i,
    {
        let b = bytes[i];
        let ghost k = i - start;
        proof {
            assert(digits[k] == b);
            assert(digits.take(k + 1).drop_last() =~= digits.take(k));
            assert(digits.take(k + 1).last() == b);
            assert(decimal_value(digits.take(k + 1)) == value * 10 + (b as int - 48) as nat);
            lemma_decimal_prefix_le(digits, k + 1);
        }
        if b < 48 || b > 57 {
            return Err(BackendError::InvalidAmount);
        }
        let digit: u64 = (b - 48) as u64;
        let tens = match value.checked_mul(10) {
            Some(t) => t,
            None => { return Err(BackendError::InvalidAmount); },
        };
        let next = match tens.checked_add(digit) {
            Some(s) => s,
            None => { return Err(BackendError::InvalidAmount); },
        };
        proof {
            assert forall|j: int| 0 <= j < k + 1 implies is_decimal_digit(
                #[trigger] digits.take(k + 1)[j],
            ) by {
                if j < k {
                    assert(digits.take(k)[j] == digits.take(k + 1)[j]);
                }
            }
        }
        value = next;
        i = i + 1;
    }
    assert(digits.take(n - start) =~= digits);
    Ok(value)
}

/// The comparison of a ledger's recorded total with what its custody account
/// holds. Only equal totals are consistent.
pub open spec fn spec_reconcile(ledger_ref: Address, ledger_total: u64, custody_total: u64)
    -> ReconciliationResult {
    ReconciliationResult {
        ledger_ref,
        ledger_total,
        custody_total,
        is_consistent: ledger_total == custody_total,
    }
}

/// Compares the total that the ledger `state` records with the balance
/// `custody_total` of its custody account. The ledger is not touched: a
/// difference is reported, never repaired.
pub fn reconcile(ledger_ref: Address, state: &CollateralVaultState, custody_total: u64) -> (r:
    ReconciliationResult)
    ensures
        r == spec_reconcile(ledger_ref, state.total_balance, custody_total),
{
    ReconciliationResult {
        ledger_ref,
        ledger_total: state.total_balance,
        custody_total,
        is_consistent: state.total_balance == custody_total,
    }
}

impl BalanceTracker {
    /// Compares the ledger stored in `account_data` with `token_amount`, the
    /// balance of its custody account as the custody layer reports it.
    pub fn reconcile_balance(
        &self,
        vault_address: &Address,
        account_data: &[u8],
        token_amount: &str,
    ) -> (r: Result<ReconciliationResult, BackendError>)
        ensures
            !holds_vault_state(account_data@) ==> r == Err::<ReconciliationResult, BackendError>(
                vault_state_error(account_data@),
            ),
            holds_vault_state(account_data@) ==> match spec_parse_amount(
                token_amount.spec_bytes(),
            ) {
                Some(custody_total) => r == Ok::<ReconciliationResult, BackendError>(
                    spec_reconcile(
                        *vault_address,
                        spec_u64_from_le_bytes(account_data@.subrange(72, 80)),
                        custody_total,
                    ),
                ),
                None => r == Err::<ReconciliationResult, BackendError>(
                    BackendError::InvalidAmount,
                ),
            },
    {
        let state = match self.get_vault_state(account_data) {
            Ok(state) => state,
            Err(e) => { return Err(e); },
        };
        let custody_total = match parse_token_amount(token_amount) {
            Ok(total) => total,
            Err(e) => { return Err(e); },
        };
        Ok(reconcile(*vault_address, &state, custody_total))
    }
}

/// What the monitor learned about one ledger in one round.
#[derive(Clone, Copy, Debug, PartialEq, Eq)]
pub struct VaultOutcome {
    pub vault: Address,
    pub outcome: Result<ReconciliationResult, BackendError>,
}

/// What the monitor does about one ledger in one round.
#[derive(Clone, Copy, Debug, PartialEq, Eq)]
pub enum MonitorAction {
    /// The ledger agrees with custody: report its total.
    ReportTotal { vault: Address, total: u64 },
    /// The ledger and custody differ: raise an alert with both balances.
    Alert { vault: Address, ledger_total: u64, custody_total: u64 },
    /// The ledger could not be checked in this round.
    ReportFailure { vault: Address, error: BackendError },
}

/// The action that an outcome calls for.
pub open spec fn spec_monitor_action(observed: VaultOutcome) -> MonitorAction {
    match observed.outcome {
        Ok(result) => if result.is_consistent {
            MonitorAction::ReportTotal { vault: observed.vault, total: result.ledger_total }
        } else {
            MonitorAction::Alert {
                vault: observed.vault,
                ledger_total: result.ledger_total,
                custody_total: result.custody_total,
            }
        },
        Err(error) => MonitorAction::ReportFailure { vault: observed.vault, error },
    }
}

/// Decides what to do about one ledger.
pub fn monitor_action(observed: &VaultOutcome) -> (action: MonitorAction)
    ensures
        action == spec_monitor_action(*observed),
{
    match observed.outcome {
        Ok(result) => {
            if result.is_consistent {
                MonitorAction::ReportTotal { vault: observed.vault, total: result.ledger_total }
            } else {
                MonitorAction::Alert {
                    vault: observed.vault,
                    ledger_total: result.ledger_total,
                    custody_total: result.custody_total,
                }
            }
        },
        Err(error) => MonitorAction::ReportFailure { vault: observed.vault, error },
    }
}

/// Decides what to do about every watched ledger in one round. Each ledger
/// gets its own action, decided by its own outcome alone: a ledger that could
/// not be checked does not keep the others from being reported.
pub fn monitor_cycle(observed: &Vec<VaultOutcome>) -> (actions: Vec<MonitorAction>)
    ensures
        actions@.len() == observed@.len(),
        forall|i: int|
            0 <= i < observed@.len() ==> #[trigger] actions@[i] == spec_monitor_action(
                observed@[i],
            ),
{
    let n = observed.len();
    let mut actions: Vec<MonitorAction> = Vec::new();
    let mut i: usize = 0;
    while i < n
        invariant
            i <= n,
            n == observed@.len(),
            actions@.len() == i,
            forall|j: int|
                0 <= j < i ==> #[trigger] actions@[j] == spec_monitor_action(observed@[j]),
        decreases n - i,
    {
        let action = monitor_action(&observed[i]);
        actions.push(action);
        i = i + 1;
    }
    actions
}

/// The monitor: the ledgers it watches, where it reaches them, and how long it
/// rests between two rounds.
#[derive(Clone, Debug, PartialEq, Eq)]
pub struct VaultMonitor {
    pub rpc_url: String,
    pub vaults_to_watch: Vec<Address>,
    pub interval_secs: u64,
}

/// Sets up the monitor of `vaults_to_watch`. From here on its driver fetches,
/// round after round, the stored ledger and the custody balance of each
/// watched ledger, hands what it found to `monitor_cycle`, carries out the
/// actions, and rests for `interval_secs`.
pub fn start_vault_monitor(rpc_url: String, vaults_to_watch: Vec<Address>) -> (monitor:
    VaultMonitor)
    ensures
        monitor.rpc_url@ == rpc_url@,
        monitor.vaults_to_watch@ == vaults_to_watch@,
        monitor.interval_secs == MONITOR_INTERVAL_SECS,
{
    VaultMonitor { rpc_url, vaults_to_watch, interval_secs: MONITOR_INTERVAL_SECS }
}

/// Builds the instructions that a depositor sends to the ledger program.
#[derive(Clone, Copy, Debug, PartialEq, Eq)]
pub struct TransactionBuilder;

impl TransactionBuilder {
    /// The deposit instruction for `amount`: the amount in eight
    /// little-endian bytes, addressed to `program_id`, naming no accounts.
    pub fn build_deposit_ix(program_id: &Address, user: &Address, vault: &Address, amount: u64)
        -> (r: Result<Instruction, BackendError>)
        ensures
            r is Ok,
            r.unwrap().program_id == *program_id,
            r.unwrap().accounts@.len() == 0,
            r.unwrap().data@ == spec_u64_to_le_bytes(amount),
    {
        let data = u64_to_le_bytes(amount);
        Ok(Instruction { program_id: *program_id, accounts: Vec::new(), data })
    }
}

/// Builds the instructions with which another program locks collateral.
#[derive(Clone, Copy, Debug, PartialEq, Eq)]
pub struct CPIManager {
    pub program_id: Address,
}

impl CPIManager {
    pub fn new(program_id: Address) -> (manager: CPIManager)
        ensures
            manager.program_id == program_id,
    {
        CPIManager { program_id }
    }

    /// The lock instruction for `amount`: the amount in eight little-endian
    /// bytes, addressed to the ledger program, naming no accounts.
    pub fn build_lock_instruction(
        &self,
        vault: Address,
        position_manager_program: Address,
        amount: u64,
    ) -> (ix: Instruction)
        ensures
            ix.program_id == self.program_id,
            ix.accounts@.len() == 0,
            ix.data@ == spec_u64_to_le_bytes(amount),
    {
        let data = u64_to_le_bytes(amount);
        Instruction { program_id: self.program_id, accounts: Vec::new(), data }
    }
}


/// The thirty-two bytes that the base 58 text `text` writes, or `None` where
/// it writes no such thing.
pub uninterp spec fn base58_decoded(text: Seq<char>) -> Option<Seq<u8>>;

/// The base 58 text of the thirty-two bytes `bytes`.
pub uninterp spec fn base58_encoded(bytes: Seq<u8>) -> Seq<char>;

/// Trusted: `<solana_sdk::pubkey::Pubkey as FromStr>::from_str`. The contract
/// claims only that the outcome is a function of the text, and gives that
/// function the name `base58_decoded`.
#[verifier::external_body]
fn parse_address(text: &str) -> (r: Option<Address>)
    ensures
        match r {
            Some(address) => base58_decoded(text@) == Some(address@),
            None => base58_decoded(text@) is None,
        },
{
    text.parse::<solana_sdk::pubkey::Pubkey>().ok().map(|key| Address { bytes: key.to_bytes() })
}

/// Trusted: `<solana_sdk::pubkey::Pubkey as ToString>::to_string`. The
/// contract claims only that the text is a function of the bytes, and gives
/// that function the name `base58_encoded`.
#[verifier::external_body]
fn address_text(address: &Address) -> (text: String)
    ensures
        text@ == base58_encoded(address@),
{
    solana_sdk::pubkey::Pubkey::new_from_array(address.bytes).to_string()
}

/// Trusted: `String::push_str` appends the text it is given.
pub assume_specification[ String::push_str ](s: &mut String, string: &str)
    ensures
        final(s)@ == old(s)@ + string@,
;

/// What is said once the ledger at `vault` has been initialized.
pub open spec fn initialized_text(vault: Seq<char>) -> Seq<char> {
    "Vault "@ + vault + " initialized (simulated)"@
}

/// The message that reports the initialization of the ledger whose address
/// reads `vault`.
pub fn initialized_message(vault: &str) -> (message: String)
    ensures
        message@ == initialized_text(vault@),
{
    let mut message = String::new();
    message.push_str("Vault ");
    message.push_str(vault);
    message.push_str(" initialized (simulated)");
    assert(message@ =~= initialized_text(vault@));
    message
}

/// The client of the ledger program: it knows where the program is and
/// prepares what a depositor sends to it.
#[derive(Clone, Debug, PartialEq, Eq)]
pub struct VaultManager {
    pub rpc_url: String,
    pub program_id: Address,
}

impl VaultManager {
    /// A client of the program `program_id`, reached over `rpc_url`.
    pub fn with_program_id(rpc_url: String, program_id: Address) -> (manager: VaultManager)
        ensures
            manager.rpc_url@ == rpc_url@,
            manager.program_id == program_id,
    {
        VaultManager { rpc_url, program_id }
    }

    /// A client of the ledger program `PROGRAM_ID`, reached over `rpc_url`.
    pub fn new(rpc_url: String) -> (r: Result<VaultManager, BackendError>)
        ensures
            match base58_decoded(PROGRAM_ID@) {
                Some(bytes) => r is Ok && r.unwrap().program_id@ == bytes && r.unwrap().rpc_url@
                    == rpc_url@,
                None => r == Err::<VaultManager, BackendError>(BackendError::InvalidProgramId),
            },
    {
        match parse_address(PROGRAM_ID) {
            Some(program_id) => Ok(VaultManager::with_program_id(rpc_url, program_id)),
            None => Err(BackendError::InvalidProgramId),
        }
    }

    /// Derives the addresses of the ledger and of the custody account of
    /// `user`, and reports the ledger as initialized. Nothing is sent.
    pub fn initialize_vault(&self, user: &Address, mint: &Address) -> (r: Result<
        String,
        BackendError,
    >)
        ensures
            match (
                program_address(vault_seeds(*user), self.program_id@),
                program_address(token_vault_seeds(*user), self.program_id@),
            ) {
                (Some((vault, _)), Some(_)) => r is Ok && r.unwrap()@ == initialized_text(
                    base58_encoded(vault),
                ),
                _ => r == Err::<String, BackendError>(BackendError::NoProgramAddress),
            },
    {
        let vault = match derive_vault_address(&self.program_id, user) {
            Some((address, _)) => address,
            None => { return Err(BackendError::NoProgramAddress); },
        };
        if derive_token_vault_address(&self.program_id, user).is_none() {
            return Err(BackendError::NoProgramAddress);
        }
        let text = address_text(&vault);
        Ok(initialized_message(text.as_str()))
    }

    /// The deposit instruction that `user` signs and sends to deposit
    /// `amount` into the ledger derived for `user`.
    pub fn deposit(&self, user: &Address, amount: u64) -> (r: Result<Instruction, BackendError>)
        ensures
            match program_address(vault_seeds(*user), self.program_id@) {
                Some(_) => {
                    &&& r is Ok
                    &&& r.unwrap().program_id == self.program_id
                    &&& r.unwrap().accounts@.len() == 0
                    &&& r.unwrap().data@ == spec_u64_to_le_bytes(amount)
                },
                None => r == Err::<Instruction, BackendError>(BackendError::NoProgramAddress),
            },
    {
        let vault = match derive_vault_address(&self.program_id, user) {
            Some((address, _)) => address,
            None => { return Err(BackendError::NoProgramAddress); },
        };
        TransactionBuilder::build_deposit_ix(&self.program_id, user, &vault, amount)
    }
}

} // verus!
