use crate::address::Address;
use vstd::prelude::*;

verus! {

/// The label under which a ledger's address is derived: the bytes of "vault".
pub open spec fn vault_seed() -> Seq<u8> {
    seq![118u8, 97u8, 117u8, 108u8, 116u8]
}

/// The label under which a custody account's address is derived: the bytes of
/// "token_vault".
pub open spec fn token_vault_seed() -> Seq<u8> {
    seq![116u8, 111u8, 107u8, 101u8, 110u8, 95u8, 118u8, 97u8, 117u8, 108u8, 116u8]
}

/// The label under which the registry's address is derived: the bytes of
/// "authority".
pub open spec fn authority_seed() -> Seq<u8> {
    seq![97u8, 117u8, 116u8, 104u8, 111u8, 114u8, 105u8, 116u8, 121u8]
}

/// The seeds of the ledger of `owner`.
pub open spec fn vault_seeds(owner: Address) -> Seq<Seq<u8>> {
    seq![vault_seed(), owner@]
}

/// The seeds of the custody account of `owner`.
pub open spec fn token_vault_seeds(owner: Address) -> Seq<Seq<u8>> {
    seq![token_vault_seed(), owner@]
}

/// The seeds of the authorization registry.
pub open spec fn authority_seeds() -> Seq<Seq<u8>> {
    seq![authority_seed()]
}

/// The seeds with which the ledger of `owner` signs: its own seeds and the
/// bump seed that was recorded when it was created.
pub open spec fn vault_signer_seeds(owner: Address, bump: u8) -> Seq<Seq<u8>> {
    seq![vault_seed(), owner@, seq![bump]]
}

/// The signing seeds of two ledgers agree only if the ledgers have the same
/// owner and bump seed: what signs for one ledger signs for no other.
pub proof fn lemma_signer_seeds_injective(
    owner_a: Address,
    bump_a: u8,
    owner_b: Address,
    bump_b: u8,
)
    requires
        vault_signer_seeds(owner_a, bump_a) == vault_signer_seeds(owner_b, bump_b),
    ensures
        owner_a == owner_b,
        bump_a == bump_b,
{
    let a = vault_signer_seeds(owner_a, bump_a);
    let b = vault_signer_seeds(owner_b, bump_b);
    assert(a[1] == owner_a@ && b[1] == owner_b@);
    assert(a[2] == seq![bump_a] && b[2] == seq![bump_b]);
    assert(seq![bump_a][0] == seq![bump_b][0]);
    crate::address::lemma_address_eq_view(owner_a, owner_b);
}

fn vault_seed_bytes() -> (v: Vec<u8>)
    ensures
        v@ == vault_seed(),
{
    let mut v: Vec<u8> = Vec::new();
    v.push(118);
    v.push(97);
    v.push(117);
    v.push(108);
    v.push(116);
    assert(v@ =~= vault_seed());
    v
}

fn token_vault_seed_bytes() -> (v: Vec<u8>)
    ensures
        v@ == token_vault_seed(),
{
    let mut v: Vec<u8> = Vec::new();
    v.push(116);
    v.push(111);
    v.push(107);
    v.push(101);
    v.push(110);
    v.push(95);
    v.push(118);
    v.push(97);
    v.push(117);
    v.push(108);
    v.push(116);
    assert(v@ =~= token_vault_seed());
    v
}

fn authority_seed_bytes() -> (v: Vec<u8>)
    ensures
        v@ == authority_seed(),
{
    let mut v: Vec<u8> = Vec::new();
    v.push(97);
    v.push(117);
    v.push(116);
    v.push(104);
    v.push(111);
    v.push(114);
    v.push(105);
    v.push(116);
    v.push(121);
    assert(v@ =~= authority_seed());
    v
}

/// The seeds of the ledger of `owner`, as bytes.
pub fn vault_seeds_of(owner: &Address) -> (seeds: Vec<Vec<u8>>)
    ensures
        seeds.deep_view() == vault_seeds(*owner),
{
    let mut seeds: Vec<Vec<u8>> = Vec::new();
    seeds.push(vault_seed_bytes());
    seeds.push(owner.to_vec());
    assert(seeds.deep_view() =~~= vault_seeds(*owner));
    seeds
}

/// The seeds of the custody account of `owner`, as bytes.
pub fn token_vault_seeds_of(owner: &Address) -> (seeds: Vec<Vec<u8>>)
    ensures
        seeds.deep_view() == token_vault_seeds(*owner),
{
    let mut seeds: Vec<Vec<u8>> = Vec::new();
    seeds.push(token_vault_seed_bytes());
    seeds.push(owner.to_vec());
    assert(seeds.deep_view() =~~= token_vault_seeds(*owner));
    seeds
}

/// The seeds of the authorization registry, as bytes.
pub fn authority_seeds_of() -> (seeds: Vec<Vec<u8>>)
    ensures
        seeds.deep_view() == authority_seeds(),
{
    let mut seeds: Vec<Vec<u8>> = Vec::new();
    seeds.push(authority_seed_bytes());
    assert(seeds.deep_view() =~~= authority_seeds());
    seeds
}

/// The seeds with which the ledger of `owner` signs, as bytes.
pub fn vault_signer_seeds_of(owner: &Address, bump: u8) -> (seeds: Vec<Vec<u8>>)
    ensures
        seeds.deep_view() == vault_signer_seeds(*owner, bump),
{
    let mut bump_seed: Vec<u8> = Vec::new();
    bump_seed.push(bump);
    assert(bump_seed@ =~= seq![bump]);
    let mut seeds: Vec<Vec<u8>> = Vec::new();
    seeds.push(vault_seed_bytes());
    seeds.push(owner.to_vec());
    seeds.push(bump_seed);
    assert(seeds.deep_view() =~~= vault_signer_seeds(*owner, bump));
    seeds
}

/// The program-derived address that `seeds` give under the program
/// `program_id`, with its bump seed, or `None` where the seeds give none.
pub uninterp spec fn program_address(seeds: Seq<Seq<u8>>, program_id: Seq<u8>) -> Option<
    (Seq<u8>, u8),
>;

/// Trusted: `solana_sdk::pubkey::Pubkey::try_find_program_address`. The
/// contract claims only that the outcome is a function of the seeds and the
/// program's identity, and gives that function the name `program_address`.
/// Unlike `find_program_address`, this call returns `None` instead of
/// panicking where no address can be derived.
#[verifier::external_body]
fn try_find_program_address(seeds: &Vec<Vec<u8>>, program_id: &Address) -> (r: Option<
    (Address, u8),
>)
    ensures
        match r {
            Some((address, bump)) => program_address(seeds.deep_view(), program_id@) == Some(
                (address@, bump),
            ),
            None => program_address(seeds.deep_view(), program_id@) is None,
        },
{
    let slices: Vec<&[u8]> = seeds.iter().map(|s| s.as_slice()).collect();
    let id = solana_sdk::pubkey::Pubkey::new_from_array(program_id.bytes);
    solana_sdk::pubkey::Pubkey::try_find_program_address(&slices, &id).map(
        |(key, bump)| (Address { bytes: key.to_bytes() }, bump),
    )
}

/// The address of the ledger of `owner` under `program_id`, with its bump
/// seed.
pub fn derive_vault_address(program_id: &Address, owner: &Address) -> (r: Option<(Address, u8)>)
    ensures
        match r {
            Some((address, bump)) => program_address(vault_seeds(*owner), program_id@) == Some(
                (address@, bump),
            ),
            None => program_address(vault_seeds(*owner), program_id@) is None,
        },
{
    let seeds = vault_seeds_of(owner);
    try_find_program_address(&seeds, program_id)
}

/// The address of the custody account of `owner` under `program_id`, with its
/// bump seed.
pub fn derive_token_vault_address(program_id: &Address, owner: &Address) -> (r: Option<
    (Address, u8),
>)
    ensures
        match r {
            Some((address, bump)) => program_address(token_vault_seeds(*owner), program_id@)
                == Some((address@, bump)),
            None => program_address(token_vault_seeds(*owner), program_id@) is None,
        },
{
    let seeds = token_vault_seeds_of(owner);
    try_find_program_address(&seeds, program_id)
}

/// The address of the authorization registry under `program_id`, with its
/// bump seed.
pub fn derive_authority_address(program_id: &Address) -> (r: Option<(Address, u8)>)
    ensures
        match r {
            Some((address, bump)) => program_address(authority_seeds(), program_id@) == Some(
                (address@, bump),
            ),
            None => program_address(authority_seeds(), program_id@) is None,
        },
{
    let seeds = authority_seeds_of();
    try_find_program_address(&seeds, program_id)
}

} // verus!
