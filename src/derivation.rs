use vstd::prelude::*;
use crate::address::{Address, decimal_bytes, decimal_digits, same_address};

verus! {

/// The canonical program-derived address of `seeds` under `program_id`, with
/// its bump seed, as the ledger computes it; `None` when no bump seed works or
/// the seeds break the ledger's limits.
pub uninterp spec fn canonical_address_of(seeds: Seq<Seq<u8>>, program_id: Seq<u8>) -> Option<(Seq<u8>, u8)>;

/// Relies on `Pubkey::try_find_program_address` (anchor_lang's re-export of
/// solana-address): the search for the highest bump seed that gives an
/// off-curve address; a pure function of the seeds and the program id.
#[verifier::external_body]
fn try_find_program_address(seeds: &Vec<Vec<u8>>, program_id: &Address) -> (r: Option<(Address, u8)>)
    ensures
        r matches Some(p) ==> canonical_address_of(seeds.deep_view(), program_id@) == Some((p.0@, p.1)),
        r is None ==> canonical_address_of(seeds.deep_view(), program_id@) is None,
{
    let slices: Vec<&[u8]> = seeds.iter().map(|s| s.as_slice()).collect();
    let id = anchor_lang::prelude::Pubkey::new_from_array(program_id.bytes);
    anchor_lang::prelude::Pubkey::try_find_program_address(&slices, &id)
        .map(|(k, bump)| (Address { bytes: k.to_bytes() }, bump))
}

/// The program-derived address of `seeds` (the bump seed included) under
/// `program_id`; `None` when it lies on the curve or the seeds break the
/// ledger's limits.
pub uninterp spec fn program_address_of(seeds: Seq<Seq<u8>>, program_id: Seq<u8>) -> Option<Seq<u8>>;

/// Relies on `Pubkey::create_program_address` (anchor_lang's re-export of
/// solana-address): the hash of the seeds and the program id, refused when it
/// is a curve point; a pure function of its arguments.
#[verifier::external_body]
fn create_program_address(seeds: &Vec<Vec<u8>>, program_id: &Address) -> (r: Option<Address>)
    ensures
        r matches Some(a) ==> program_address_of(seeds.deep_view(), program_id@) == Some(a@),
        r is None ==> program_address_of(seeds.deep_view(), program_id@) is None,
{
    let slices: Vec<&[u8]> = seeds.iter().map(|s| s.as_slice()).collect();
    let id = anchor_lang::prelude::Pubkey::new_from_array(program_id.bytes);
    anchor_lang::prelude::Pubkey::create_program_address(&slices, &id)
        .ok()
        .map(|k| Address { bytes: k.to_bytes() })
}

} // verus!

verus! {

/// Seeds with which a network's vault authority signs: the network's key and
/// the bump seed fixed when the network was registered.
pub open spec fn vault_signer_seeds(network: Seq<u8>, bump: u8) -> Seq<Seq<u8>> {
    seq![network, seq![bump]]
}

/// `signer` is the vault authority of the network at `network` under bump `bump`.
pub open spec fn is_vault_authority(program_id: Seq<u8>, network: Seq<u8>, signer: Seq<u8>, bump: u8) -> bool {
    program_address_of(vault_signer_seeds(network, bump), program_id) == Some(signer)
}

/// `key` with `bump` is the canonical derivation of `seeds` under `program_id`.
pub open spec fn derives(seeds: Seq<Seq<u8>>, program_id: Seq<u8>, key: Seq<u8>, bump: u8) -> bool {
    canonical_address_of(seeds, program_id) == Some((key, bump))
}

/// Seeds of a network's vault authority: the network's key alone.
pub open spec fn vault_authority_seeds(network: Seq<u8>) -> Seq<Seq<u8>> {
    seq![network]
}

/// Seeds of a bounty record: the network's key and the bounty's number in decimal.
pub open spec fn bounty_seeds(network: Seq<u8>, number: nat) -> Seq<Seq<u8>> {
    seq![network, decimal_digits(number)]
}

/// Seeds of a submission record: the network's key, the bounty's key and the
/// submission's index in decimal.
pub open spec fn submission_seeds(network: Seq<u8>, bounty: Seq<u8>, index: nat) -> Seq<Seq<u8>> {
    seq![network, bounty, decimal_digits(index)]
}

fn address_seed(a: &Address) -> (r: Vec<u8>)
    ensures
        r@ == a@,
        r.deep_view() == a@,
{
    let mut v: Vec<u8> = Vec::new();
    let mut i: usize = 0;
    while i < 32
        invariant
            i <= 32,
            a@.len() == 32,
            v@ == a@.subrange(0, i as int),
        decreases 32 - i,
    {
        v.push(a.bytes[i]);
        i = i + 1;
        assert(v@ =~= a@.subrange(0, i as int));
    }
    assert(v@ =~= a@);
    assert(v.deep_view() =~= v@);
    v
}

fn number_seed(n: u128) -> (r: Vec<u8>)
    ensures
        r@ == decimal_digits(n as nat),
        r.deep_view() == decimal_digits(n as nat),
{
    let v = decimal_bytes(n);
    assert(v.deep_view() =~= v@);
    v
}

/// The vault authority of the network at `network` under bump `bump`: the
/// keyless identity that owns the network's reward vaults.
pub fn vault_authority(program_id: &Address, network: &Address, bump: u8) -> (r: Option<Address>)
    ensures
        r matches Some(a) ==> is_vault_authority(program_id@, network@, a@, bump),
        r is None ==> program_address_of(vault_signer_seeds(network@, bump), program_id@) is None,
{
    let mut seeds: Vec<Vec<u8>> = Vec::new();
    seeds.push(address_seed(network));
    let mut b: Vec<u8> = Vec::new();
    b.push(bump);
    assert(b.deep_view() =~= seq![bump]);
    seeds.push(b);
    assert(seeds.deep_view() =~= vault_signer_seeds(network@, bump));
    create_program_address(&seeds, program_id)
}

/// The canonical vault authority of the network at `network`, with the bump
/// seed to register the network with.
pub fn find_vault_authority(program_id: &Address, network: &Address) -> (r: Option<(Address, u8)>)
    ensures
        r matches Some(p) ==> derives(vault_authority_seeds(network@), program_id@, p.0@, p.1),
        r is None ==> canonical_address_of(vault_authority_seeds(network@), program_id@) is None,
{
    let mut seeds: Vec<Vec<u8>> = Vec::new();
    seeds.push(address_seed(network));
    assert(seeds.deep_view() =~= vault_authority_seeds(network@));
    try_find_program_address(&seeds, program_id)
}

/// The address of bounty `number` of the network at `network`, with its bump seed.
pub fn bounty_address(program_id: &Address, network: &Address, number: u128) -> (r: Option<(Address, u8)>)
    ensures
        r matches Some(p) ==> derives(bounty_seeds(network@, number as nat), program_id@, p.0@, p.1),
        r is None ==> canonical_address_of(bounty_seeds(network@, number as nat), program_id@) is None,
{
    let mut seeds: Vec<Vec<u8>> = Vec::new();
    seeds.push(address_seed(network));
    seeds.push(number_seed(number));
    assert(seeds.deep_view() =~= bounty_seeds(network@, number as nat));
    try_find_program_address(&seeds, program_id)
}

/// The address of submission `index` of the bounty at `bounty`, with its bump seed.
pub fn submission_address(program_id: &Address, network: &Address, bounty: &Address, index: u64) -> (r: Option<(Address, u8)>)
    ensures
        r matches Some(p) ==> derives(submission_seeds(network@, bounty@, index as nat), program_id@, p.0@, p.1),
        r is None ==> canonical_address_of(submission_seeds(network@, bounty@, index as nat), program_id@) is None,
{
    let mut seeds: Vec<Vec<u8>> = Vec::new();
    seeds.push(address_seed(network));
    seeds.push(address_seed(bounty));
    seeds.push(number_seed(index as u128));
    assert(seeds.deep_view() =~= submission_seeds(network@, bounty@, index as nat));
    try_find_program_address(&seeds, program_id)
}

/// Whether a derivation result names exactly `key` with bump seed `bump`.
pub fn matches_derivation(found: &Option<(Address, u8)>, key: &Address, bump: u8) -> (r: bool)
    ensures
        r == (found matches Some(p) && p.0@ == key@ && p.1 == bump),
{
    match found {
        Some(p) => p.1 == bump && same_address(&p.0, key),
        None => false,
    }
}

} // verus!
