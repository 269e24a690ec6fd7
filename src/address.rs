use vstd::prelude::*;

use solana_program::pubkey::Pubkey;

use crate::error::ErrorCode;

verus! {

/// The address and bump seed that the program-address search finds for
/// `seeds` under `program_id`, or `None` where no bump seed gives an address
/// off the curve.
pub uninterp spec fn program_address(seeds: Seq<Seq<u8>>, program_id: Seq<u8>) -> Option<
    (Seq<u8>, u8),
>;

/// The bytes of each seed.
pub open spec fn seeds_view(seeds: Seq<Vec<u8>>) -> Seq<Seq<u8>> {
    seeds.map_values(|s: Vec<u8>| s@)
}

/// Relies on solana_program's `Pubkey::try_find_program_address`, which tries
/// each bump seed from 255 down and returns the first program address found,
/// or `None`; the result depends on the seeds and the program id alone.
#[verifier::external_body]
fn try_find_program_address(seeds: &Vec<Vec<u8>>, program_id: &[u8; 32]) -> (r: Option<
    ([u8; 32], u8),
>)
    ensures
        r matches Some(found) ==> program_address(seeds_view(seeds@), program_id@) == Some(
            (found.0@, found.1),
        ),
        r is None ==> program_address(seeds_view(seeds@), program_id@) is None,
{
    let refs: Vec<&[u8]> = seeds.iter().map(|s| s.as_slice()).collect();
    Pubkey::try_find_program_address(&refs, &Pubkey::new_from_array(*program_id)).map(
        |(key, bump)| (key.to_bytes(), bump),
    )
}

/// The seed tag of the shared reward vault: `b"vault"`.
pub open spec fn vault_seed() -> Seq<u8> {
    seq![118u8, 97u8, 117u8, 108u8, 116u8]
}

/// The seed tag of a user's ledger entry: `b"stake_info"`.
pub open spec fn stake_info_seed() -> Seq<u8> {
    seq![115u8, 116u8, 97u8, 107u8, 101u8, 95u8, 105u8, 110u8, 102u8, 111u8]
}

/// The seed tag of a user's personal stake vault: `b"token"`.
pub open spec fn token_seed() -> Seq<u8> {
    seq![116u8, 111u8, 107u8, 101u8, 110u8]
}

/// The seeds of the shared reward vault's address.
pub open spec fn vault_seeds() -> Seq<Seq<u8>> {
    seq![vault_seed()]
}

/// The seeds of `owner`'s ledger entry address.
pub open spec fn stake_info_seeds(owner: Seq<u8>) -> Seq<Seq<u8>> {
    seq![stake_info_seed(), owner]
}

/// The seeds of `owner`'s personal stake vault address.
pub open spec fn stake_account_seeds(owner: Seq<u8>) -> Seq<Seq<u8>> {
    seq![token_seed(), owner]
}

/// A program-owned address with the bump seed that produced it.
#[derive(Clone, Copy, Debug)]
pub struct ProgramAddress {
    pub address: [u8; 32],
    pub bump: u8,
}

/// `r` is what deriving from `seeds` under `program_id` gives: the address
/// found, or `DerivationFailed` where there is none.
pub open spec fn derived_from(
    r: Result<ProgramAddress, ErrorCode>,
    seeds: Seq<Seq<u8>>,
    program_id: Seq<u8>,
) -> bool {
    match program_address(seeds, program_id) {
        Some(found) => r matches Ok(p) && p.address@ == found.0 && p.bump == found.1,
        None => r == Err::<ProgramAddress, ErrorCode>(ErrorCode::DerivationFailed),
    }
}

/// The reward vault's seed tag as bytes.
pub fn vault_seed_bytes() -> (r: Vec<u8>)
    ensures
        r@ == vault_seed(),
{
    let r: Vec<u8> = vec![118u8, 97u8, 117u8, 108u8, 116u8];
    assert(r@ =~= vault_seed());
    r
}

/// The ledger entry's seed tag as bytes.
pub fn stake_info_seed_bytes() -> (r: Vec<u8>)
    ensures
        r@ == stake_info_seed(),
{
    let r: Vec<u8> = vec![115u8, 116u8, 97u8, 107u8, 101u8, 95u8, 105u8, 110u8, 102u8, 111u8];
    assert(r@ =~= stake_info_seed());
    r
}

/// The personal stake vault's seed tag as bytes.
pub fn token_seed_bytes() -> (r: Vec<u8>)
    ensures
        r@ == token_seed(),
{
    let r: Vec<u8> = vec![116u8, 111u8, 107u8, 101u8, 110u8];
    assert(r@ =~= token_seed());
    r
}

fn array_to_vec(a: &[u8; 32]) -> (r: Vec<u8>)
    ensures
        r@ == a@,
{
    let mut r: Vec<u8> = Vec::new();
    let mut i: usize = 0;
    while i < 32
        invariant
            i <= 32,
            r@ == a@.subrange(0, i as int),
        decreases 32 - i,
    {
        r.push(a[i]);
        i = i + 1;
        assert(r@ =~= a@.subrange(0, i as int));
    }
    assert(a@.subrange(0, 32) =~= a@);
    r
}

fn find(seeds: &Vec<Vec<u8>>, program_id: &[u8; 32]) -> (r: Result<ProgramAddress, ErrorCode>)
    ensures
        derived_from(r, seeds_view(seeds@), program_id@),
{
    match try_find_program_address(seeds, program_id) {
        Some((address, bump)) => Ok(ProgramAddress { address, bump }),
        None => Err(ErrorCode::DerivationFailed),
    }
}

/// The address of the shared reward vault.
pub fn find_vault_address(program_id: &[u8; 32]) -> (r: Result<ProgramAddress, ErrorCode>)
    ensures
        derived_from(r, vault_seeds(), program_id@),
{
    let seeds: Vec<Vec<u8>> = vec![vault_seed_bytes()];
    assert(seeds_view(seeds@) =~= vault_seeds());
    find(&seeds, program_id)
}

/// The address of `owner`'s ledger entry.
pub fn find_stake_info_address(owner: &[u8; 32], program_id: &[u8; 32]) -> (r: Result<
    ProgramAddress,
    ErrorCode,
>)
    ensures
        derived_from(r, stake_info_seeds(owner@), program_id@),
{
    let seeds: Vec<Vec<u8>> = vec![stake_info_seed_bytes(), array_to_vec(owner)];
    assert(seeds_view(seeds@) =~= stake_info_seeds(owner@));
    find(&seeds, program_id)
}

/// The address of `owner`'s personal stake vault.
pub fn find_stake_account_address(owner: &[u8; 32], program_id: &[u8; 32]) -> (r: Result<
    ProgramAddress,
    ErrorCode,
>)
    ensures
        derived_from(r, stake_account_seeds(owner@), program_id@),
{
    let seeds: Vec<Vec<u8>> = vec![token_seed_bytes(), array_to_vec(owner)];
    assert(seeds_view(seeds@) =~= stake_account_seeds(owner@));
    find(&seeds, program_id)
}

/// The seeds with which the program signs for the reward vault: its tag
/// followed by the bump seed.
pub fn vault_signer_seeds(bump: u8) -> (r: Vec<Vec<u8>>)
    ensures
        seeds_view(r@) == vault_seeds().push(seq![bump]),
{
    let tail: Vec<u8> = vec![bump];
    assert(tail@ =~= seq![bump]);
    let r: Vec<Vec<u8>> = vec![vault_seed_bytes(), tail];
    assert(seeds_view(r@) =~= vault_seeds().push(seq![bump]));
    r
}

/// The seeds with which the program signs for `owner`'s personal stake
/// vault: its tag, the owner, and the bump seed.
pub fn stake_account_signer_seeds(owner: &[u8; 32], bump: u8) -> (r: Vec<Vec<u8>>)
    ensures
        seeds_view(r@) == stake_account_seeds(owner@).push(seq![bump]),
{
    let tail: Vec<u8> = vec![bump];
    assert(tail@ =~= seq![bump]);
    let r: Vec<Vec<u8>> = vec![token_seed_bytes(), array_to_vec(owner), tail];
    assert(seeds_view(r@) =~= stake_account_seeds(owner@).push(seq![bump]));
    r
}

} // verus!
