//! Derived authorities: addresses that no private key controls.
//!
//! The vault of a token type and the stake record of a participant live at
//! addresses derived from a tag, a key and a nonce under this program's
//! address. Only the program can act for such an address, by presenting the
//! seeds and the nonce that reconstruct it. What a list of seeds reconstructs
//! is computed by `anchor_lang`'s `Pubkey`; this module fixes the seeds and
//! states what the callers may rely on.

use vstd::prelude::*;
use anchor_lang::solana_program::pubkey::Pubkey;
use crate::address::{address_bytes, Address};

verus! {

/// What `Pubkey::create_program_address` returns for a list of seeds and a
/// program address: the address that the seeds reconstruct, or `None` where
/// it returns an error. It is a hash of its arguments followed by a test of
/// the result, so equal arguments give equal results.
pub uninterp spec fn program_address(seeds: Seq<Seq<u8>>, program_id: Seq<u8>) -> Option<Seq<u8>>;

/// The bytes of this program's address.
pub open spec fn program_id() -> Seq<u8> {
    seq![
        80u8, 15u8, 79u8, 119u8, 150u8, 151u8, 197u8, 179u8,
        250u8, 57u8, 224u8, 226u8, 29u8, 221u8, 158u8, 16u8,
        168u8, 23u8, 126u8, 154u8, 145u8, 93u8, 249u8, 132u8,
        196u8, 206u8, 114u8, 120u8, 203u8, 122u8, 101u8, 204u8,
    ]
}

/// The tag of vault addresses: the ASCII bytes of `vault`.
pub open spec fn vault_tag() -> Seq<u8> {
    seq![118u8, 97u8, 117u8, 108u8, 116u8]
}

/// The tag of stake record addresses: the ASCII bytes of `user`.
pub open spec fn user_tag() -> Seq<u8> {
    seq![117u8, 115u8, 101u8, 114u8]
}

/// The seeds of the vault of a token type, without the nonce.
pub open spec fn vault_seed_list(mint: Seq<u8>) -> Seq<Seq<u8>> {
    seq![vault_tag(), mint]
}

/// The seeds of the stake record of a participant, without the nonce.
pub open spec fn user_seed_list(participant: Seq<u8>) -> Seq<Seq<u8>> {
    seq![user_tag(), participant]
}

/// A list of seeds followed by a nonce as a last seed of one byte.
pub open spec fn with_nonce(seeds: Seq<Seq<u8>>, nonce: u8) -> Seq<Seq<u8>> {
    seeds.push(seq![nonce])
}

/// `address` and `nonce` are the derivation of `seeds` under `program`:
/// `nonce` is the largest nonce from 1 to 255 with which the seeds
/// reconstruct an address, and `address` is that address.
pub open spec fn derives(
    seeds: Seq<Seq<u8>>,
    program: Seq<u8>,
    address: Seq<u8>,
    nonce: u8,
) -> bool {
    &&& nonce >= 1
    &&& program_address(with_nonce(seeds, nonce), program) == Some(address)
    &&& forall|higher: u8|
        nonce < higher ==> (#[trigger] program_address(with_nonce(seeds, higher), program))
            is None
}

/// No nonce from 1 to 255 makes `seeds` reconstruct an address under
/// `program`.
pub open spec fn underivable(seeds: Seq<Seq<u8>>, program: Seq<u8>) -> bool {
    forall|nonce: u8|
        nonce >= 1 ==> (#[trigger] program_address(with_nonce(seeds, nonce), program)) is None
}

/// Some nonce derives `address` from `seeds` under this program.
pub open spec fn has_nonce(seeds: Seq<Seq<u8>>, address: Seq<u8>) -> bool {
    exists|nonce: u8| #[trigger] derives(seeds, program_id(), address, nonce)
}

/// `derived` is what deriving the vault address of `mint` comes to: the
/// address that the vault's seeds derive with some nonce, or `None` where no
/// nonce derives one. There is exactly one such value for each token type.
pub open spec fn is_vault_derivation(mint: Seq<u8>, derived: Option<Address>) -> bool {
    match derived {
        Some(key) => has_nonce(vault_seed_list(mint), key@),
        None => underivable(vault_seed_list(mint), program_id()),
    }
}

/// The address that the vault of `mint` has if `nonce` is its nonce.
pub open spec fn vault_authority_of(mint: Seq<u8>, nonce: u8) -> Option<Seq<u8>> {
    program_address(with_nonce(vault_seed_list(mint), nonce), program_id())
}

/// Calls `Pubkey::create_program_address` and hands back the address it
/// returns, or `None` for either of its errors. The contract only gives the
/// result its name, `program_address`: nothing is claimed of which seeds
/// reconstruct which address.
#[verifier::external_body]
fn create_program_address(seeds: &Vec<Vec<u8>>, program: &Address) -> (address: Option<Address>)
    ensures
        address_bytes(address) == program_address(seeds.deep_view(), program@),
{
    let parts: Vec<&[u8]> = seeds.iter().map(|seed| seed.as_slice()).collect();
    match Pubkey::create_program_address(&parts, &Pubkey::new_from_array(program.bytes)) {
        Ok(key) => Some(Address { bytes: key.to_bytes() }),
        Err(_) => None,
    }
}

/// Calls `Pubkey::try_find_program_address`, which tries the nonces 255, 254,
/// down to 1 as a last seed of one byte and returns the first address that
/// `Pubkey::create_program_address` reconstructs, with its nonce. It returns
/// `None` when it has tried them all in vain, or at once when the seeds are
/// too many or too long, in which case no nonce reconstructs an address
/// either. The contract says this over `program_address`.
#[verifier::external_body]
fn try_find_program_address(seeds: &Vec<Vec<u8>>, program: &Address) -> (found: Option<
    (Address, u8),
>)
    ensures
        match found {
            Some((address, nonce)) => derives(seeds.deep_view(), program@, address@, nonce),
            None => underivable(seeds.deep_view(), program@),
        },
{
    let parts: Vec<&[u8]> = seeds.iter().map(|seed| seed.as_slice()).collect();
    match Pubkey::try_find_program_address(&parts, &Pubkey::new_from_array(program.bytes)) {
        Some((key, nonce)) => Some((Address { bytes: key.to_bytes() }, nonce)),
        None => None,
    }
}

/// Appends one seed to a list of seeds.
fn push_seed(seeds: &mut Vec<Vec<u8>>, seed: Vec<u8>)
    ensures
        final(seeds).deep_view() == old(seeds).deep_view().push(seed@),
{
    let ghost before = *seeds;
    seeds.push(seed);
    proof {
        let after = *seeds;
        assert(after@.len() == before@.len() + 1);
        assert(after@[before@.len() as int].deep_view() =~= seed@);
        assert forall|i: int| 0 <= i < before@.len() implies after.deep_view()[i]
            == before.deep_view()[i] by {
            assert(after@[i] == before@[i]);
        }
        assert(after.deep_view() =~= before.deep_view().push(seed@));
    }
}

/// This program's address.
pub fn id() -> (program: Address)
    ensures
        program@ == program_id(),
{
    let program = Address {
        bytes: [
            80, 15, 79, 119, 150, 151, 197, 179,
            250, 57, 224, 226, 29, 221, 158, 16,
            168, 23, 126, 154, 145, 93, 249, 132,
            196, 206, 114, 120, 203, 122, 101, 204,
        ],
    };
    assert(program@ =~= program_id());
    program
}

/// The seeds of the vault of `mint`, without the nonce.
pub fn vault_seeds(mint: &Address) -> (seeds: Vec<Vec<u8>>)
    ensures
        seeds.deep_view() == vault_seed_list(mint@),
{
    let tag: Vec<u8> = vec![118u8, 97u8, 117u8, 108u8, 116u8];
    assert(tag@ =~= vault_tag());
    let mut seeds: Vec<Vec<u8>> = Vec::new();
    assert(seeds.deep_view() =~= Seq::<Seq<u8>>::empty());
    push_seed(&mut seeds, tag);
    push_seed(&mut seeds, mint.to_seed());
    assert(seeds.deep_view() =~= vault_seed_list(mint@));
    seeds
}

/// The seeds of the stake record of `participant`, without the nonce.
pub fn user_seeds(participant: &Address) -> (seeds: Vec<Vec<u8>>)
    ensures
        seeds.deep_view() == user_seed_list(participant@),
{
    let tag: Vec<u8> = vec![117u8, 115u8, 101u8, 114u8];
    assert(tag@ =~= user_tag());
    let mut seeds: Vec<Vec<u8>> = Vec::new();
    assert(seeds.deep_view() =~= Seq::<Seq<u8>>::empty());
    push_seed(&mut seeds, tag);
    push_seed(&mut seeds, participant.to_seed());
    assert(seeds.deep_view() =~= user_seed_list(participant@));
    seeds
}

/// The seeds with which the program signs for the vault of `mint`: the
/// vault's seeds and the nonce.
pub fn vault_signer_seeds(mint: &Address, nonce: u8) -> (seeds: Vec<Vec<u8>>)
    ensures
        seeds.deep_view() == with_nonce(vault_seed_list(mint@), nonce),
{
    let mut seeds = vault_seeds(mint);
    let last: Vec<u8> = vec![nonce];
    assert(last@ =~= seq![nonce]);
    push_seed(&mut seeds, last);
    seeds
}

/// Derives the address of the vault of `mint`, and the nonce that
/// reconstructs it.
pub fn vault_address(mint: &Address) -> (found: Option<(Address, u8)>)
    ensures
        match found {
            Some((address, nonce)) => derives(
                vault_seed_list(mint@),
                program_id(),
                address@,
                nonce,
            ),
            None => underivable(vault_seed_list(mint@), program_id()),
        },
{
    let seeds = vault_seeds(mint);
    let program = id();
    try_find_program_address(&seeds, &program)
}

/// Derives the address of the stake record of `participant`, and the nonce
/// that reconstructs it.
pub fn user_address(participant: &Address) -> (found: Option<(Address, u8)>)
    ensures
        match found {
            Some((address, nonce)) => derives(
                user_seed_list(participant@),
                program_id(),
                address@,
                nonce,
            ),
            None => underivable(user_seed_list(participant@), program_id()),
        },
{
    let seeds = user_seeds(participant);
    let program = id();
    try_find_program_address(&seeds, &program)
}

/// Reconstructs the address of the vault of `mint` from a nonce that the
/// caller supplies. `None` when the seeds with that nonce reconstruct no
/// address.
pub fn vault_authority(mint: &Address, nonce: u8) -> (address: Option<Address>)
    ensures
        address_bytes(address) == vault_authority_of(mint@, nonce),
{
    let seeds = vault_signer_seeds(mint, nonce);
    let program = id();
    create_program_address(&seeds, &program)
}

} // verus!
