//! Staking an NFT.

use vstd::prelude::*;
use vstd::utf8::encode_utf8;
use crate::errors::TriadProtocolError;
use crate::keys::{
    decoded_key, derives_to, key_matches, matches_derived, matches_written, same_key, seed_bytes,
};
use crate::state::stake::{Stake, StakeNFTArgs};

verus! {

/// The first seed of the address of every NFT's mint: the bytes of `mint`.
pub const MINT_SEED: [u8; 4] = [109, 105, 110, 116];

/// The seeds of the address of the mint of the NFT called `name`.
pub open spec fn mint_seeds(name: Seq<char>) -> Seq<Seq<u8>> {
    seq![MINT_SEED@, encode_utf8(name)]
}

/// Whether an NFT is the staker's and one of the protocol's, given the key
/// that `issuer` writes and whether the mint is the one that the issuing
/// program derives from the NFT's name.
///
/// The three tests are made in this order, and a later one is not made
/// where an earlier one fails. `None` where a test that is made has no
/// answer.
pub open spec fn nft_acceptance(
    signer: [u8; 32],
    holder: [u8; 32],
    update_authority: [u8; 32],
    issuer: Option<[u8; 32]>,
    mint_matches: Option<bool>,
) -> Option<bool> {
    if signer@ != holder@ {
        Some(false)
    } else {
        match matches_written(update_authority, issuer) {
            None => None,
            Some(false) => Some(false),
            Some(true) => mint_matches,
        }
    }
}

/// Tests whether the NFT of `mint`, called `name`, may be staked by
/// `signer`: the signer must hold it, its metadata must be under the
/// authority whose key `issuer` writes, and its mint must be the address
/// that the program whose key `issuing_program` writes derives from its
/// name.
///
/// `None` where a text that is needed writes no key, or no address derives.
pub fn nft_is_acceptable(
    signer: &[u8; 32],
    holder: &[u8; 32],
    update_authority: &[u8; 32],
    mint: &[u8; 32],
    name: &str,
    issuer: &str,
    issuing_program: &str,
) -> (r: Option<bool>)
    ensures
        r == nft_acceptance(
            *signer,
            *holder,
            *update_authority,
            decoded_key(issuer@),
            matches_derived(*mint, mint_seeds(name@), decoded_key(issuing_program@)),
        ),
{
    if !same_key(signer, holder) {
        return Some(false);
    }
    match key_matches(update_authority, issuer) {
        None => None,
        Some(false) => Some(false),
        Some(true) => {
            let mut prefix: Vec<u8> = Vec::new();
            prefix.push(MINT_SEED[0]);
            prefix.push(MINT_SEED[1]);
            prefix.push(MINT_SEED[2]);
            prefix.push(MINT_SEED[3]);
            assert(prefix@ =~= MINT_SEED@);
            let name_bytes: Vec<u8> = slice_to_vec(name.as_bytes());
            let mut seeds: Vec<Vec<u8>> = Vec::new();
            seeds.push(prefix);
            seeds.push(name_bytes);
            assert(seed_bytes(seeds@) =~= mint_seeds(name@));
            derives_to(mint, &seeds, issuing_program)
        },
    }
}

/// A copy of the bytes.
fn slice_to_vec(bytes: &[u8]) -> (copy: Vec<u8>)
    ensures
        copy@ == bytes@,
{
    let mut copy: Vec<u8> = Vec::new();
    let mut n: usize = 0;
    while n < bytes.len()
        invariant
            n <= bytes@.len(),
            copy@ == bytes@.take(n as int),
        decreases bytes@.len() - n,
    {
        copy.push(bytes[n]);
        assert(bytes@.take(n as int + 1) == bytes@.take(n as int).push(bytes@[n as int]));
        n = n + 1;
    }
    assert(bytes@.take(n as int) == bytes@);
    copy
}

/// Stakes one NFT for the user `authority` and returns the stake, locked;
/// one unit of the NFT's mint is what has to pass into the stake's custody.
///
/// Refused with `Unauthorized` unless the NFT is acceptable: the staker's
/// and one of the protocol's.
pub fn stake_nft(
    acceptable: bool,
    args: StakeNFTArgs,
    token_name: String,
    authority: [u8; 32],
    from_ata: [u8; 32],
    mint: [u8; 32],
    stake_vault_key: [u8; 32],
    bump: u8,
    now: i64,
) -> (r: Result<Stake, TriadProtocolError>)
    ensures
        match r {
            Ok(stake) => {
                &&& acceptable
                &&& stake == (Stake {
                    bump,
                    authority,
                    init_ts: now,
                    withdraw_ts: 0,
                    is_locked: true,
                    name: token_name,
                    collections: args.collections,
                    rarity: args.rarity,
                    from_ata,
                    mint,
                    stake_vault: stake_vault_key,
                    amount: 0,
                })
            },
            Err(e) => e == TriadProtocolError::Unauthorized && !acceptable,
        },
{
    if !acceptable {
        return Err(TriadProtocolError::Unauthorized);
    }
    Ok(
        Stake {
            bump,
            authority,
            init_ts: now,
            withdraw_ts: 0,
            is_locked: true,
            name: token_name,
            collections: args.collections,
            rarity: args.rarity,
            from_ata,
            mint,
            stake_vault: stake_vault_key,
            amount: 0,
        },
    )
}

} // verus!
