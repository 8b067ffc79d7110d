//! Account keys: thirty-two bytes, written in base 58, and derived from
//! seeds.

use std::str::FromStr;
use vstd::prelude::*;

verus! {

/// The key that a text in base 58 writes, where it writes one.
pub uninterp spec fn decoded_key(text: Seq<char>) -> Option<[u8; 32]>;

/// The address that a program derives from seeds, with the bump that made
/// it valid, where there is one.
pub uninterp spec fn derived_address(seeds: Seq<Seq<u8>>, program_id: Seq<u8>) -> Option<
    ([u8; 32], u8),
>;

/// The bytes of each seed.
pub open spec fn seed_bytes(seeds: Seq<Vec<u8>>) -> Seq<Seq<u8>> {
    Seq::new(seeds.len(), |i: int| seeds[i]@)
}

/// Reads a key written in base 58.
///
/// Trusted: this is `Pubkey::from_str` of `solana_program`, reached through
/// `anchor_lang`. It refuses a text of more than 44 bytes, decodes base 58,
/// and accepts what gives thirty-two bytes. The contract claims only that
/// the outcome is a function of the text.
#[verifier::external_body]
fn decode_key(text: &str) -> (key: Option<[u8; 32]>)
    ensures
        key == decoded_key(text@),
{
    match anchor_lang::prelude::Pubkey::from_str(text) {
        Ok(key) => Some(key.to_bytes()),
        Err(_) => None,
    }
}

/// Derives the address of a program for seeds.
///
/// Trusted: this is `Pubkey::try_find_program_address` of `solana_program`,
/// reached through `anchor_lang`. It hashes the seeds, a bump and the
/// program's key, trying bumps from 255 downward until the hash is a valid
/// address, and finds none where there are too many seeds or a seed is too
/// long. The contract claims only that the outcome is a function of the
/// seeds and the key.
#[verifier::external_body]
fn derive_address(seeds: &Vec<Vec<u8>>, program_id: &[u8; 32]) -> (derived: Option<([u8; 32], u8)>)
    ensures
        derived == derived_address(seed_bytes(seeds@), program_id@),
{
    let slices: Vec<&[u8]> = seeds.iter().map(|seed| seed.as_slice()).collect();
    let program = anchor_lang::prelude::Pubkey::new_from_array(*program_id);
    match anchor_lang::prelude::Pubkey::try_find_program_address(&slices, &program) {
        Some((address, bump)) => Some((address.to_bytes(), bump)),
        None => None,
    }
}

/// Whether two keys hold the same bytes.
pub fn same_key(a: &[u8; 32], b: &[u8; 32]) -> (r: bool)
    ensures
        r == (a@ == b@),
{
    let mut n: usize = 0;
    while n < 32
        invariant
            n <= 32,
            forall|i: int| 0 <= i < n ==> a@[i] == b@[i],
        decreases 32 - n,
    {
        if a[n] != b[n] {
            return false;
        }
        n = n + 1;
    }
    assert(a@ =~= b@);
    true
}

/// What `key_matches` answers: whether `key` is the key that `text`
/// writes, where `text` writes one.
pub open spec fn matches_written(key: [u8; 32], written: Option<[u8; 32]>) -> Option<bool> {
    match written {
        Some(written) => Some(written@ == key@),
        None => None,
    }
}

/// Whether `key` is the key that `text` writes in base 58. `None` where
/// `text` writes no key.
pub fn key_matches(key: &[u8; 32], text: &str) -> (r: Option<bool>)
    ensures
        r == matches_written(*key, decoded_key(text@)),
{
    match decode_key(text) {
        Some(written) => Some(same_key(&written, key)),
        None => None,
    }
}

/// What `derives_to` answers, given what `program` writes and what derives
/// from the seeds.
pub open spec fn matches_derived(
    address: [u8; 32],
    seeds: Seq<Seq<u8>>,
    program: Option<[u8; 32]>,
) -> Option<bool> {
    match program {
        None => None,
        Some(program_id) => match derived_address(seeds, program_id@) {
            None => None,
            Some((derived, _)) => Some(derived@ == address@),
        },
    }
}

/// Whether `address` is the address that the program whose key `program`
/// writes derives from `seeds`. `None` where `program` writes no key or no
/// address derives.
pub fn derives_to(address: &[u8; 32], seeds: &Vec<Vec<u8>>, program: &str) -> (r: Option<bool>)
    ensures
        r == matches_derived(*address, seed_bytes(seeds@), decoded_key(program@)),
{
    match decode_key(program) {
        None => None,
        Some(program_id) => match derive_address(seeds, &program_id) {
            None => None,
            Some((derived, _)) => Some(same_key(&derived, address)),
        },
    }
}

} // verus!
