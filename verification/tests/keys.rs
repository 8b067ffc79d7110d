use std::str::FromStr;

use anchor_lang::prelude::Pubkey;
use triad_protocol::instructions::mint_ticket::{is_ticket_authority, TICKET_AUTHORITY};
use triad_protocol::errors::TriadProtocolError;
use triad_protocol::instructions::stake_nft::{nft_is_acceptable, MINT_SEED};
use triad_protocol::instructions::withdraw_stake::{
    is_token_stake, withdraw_stake_by_mint_text, StakeWithdrawal,
};
use triad_protocol::state::stake::{Stake, StakeVault};
use triad_protocol::keys::{derives_to, key_matches};

const SYSTEM: &str = "11111111111111111111111111111111";
const TOKEN_PROGRAM: &str = "TokenkegQfeZyiNwAJbNbGKPFXCWuBvf9Ss623VQ5DA";

#[test]
fn key_is_compared_with_its_writing() {
    assert_eq!(key_matches(&[0u8; 32], SYSTEM), Some(true));
    assert_eq!(key_matches(&[1u8; 32], SYSTEM), Some(false));
    let token = Pubkey::from_str(TOKEN_PROGRAM).unwrap().to_bytes();
    assert_eq!(key_matches(&token, TOKEN_PROGRAM), Some(true));
    assert_eq!(key_matches(&token, SYSTEM), Some(false));
    let written = Pubkey::new_from_array([7u8; 32]).to_string();
    assert_eq!(key_matches(&[7u8; 32], &written), Some(true));
    let mut other = [7u8; 32];
    other[31] = 8;
    assert_eq!(key_matches(&other, &written), Some(false));
}

#[test]
fn text_that_writes_no_key() {
    assert_eq!(key_matches(&[0u8; 32], ""), None);
    assert_eq!(key_matches(&[0u8; 32], "not a key"), None);
    // thirty-one bytes
    assert_eq!(key_matches(&[0u8; 32], "1111111111111111111111111111111"), None);
    // the letter l is no digit of base 58
    assert_eq!(key_matches(&[0u8; 32], "l1111111111111111111111111111111"), None);
    assert_eq!(
        key_matches(&[0u8; 32], "111111111111111111111111111111111111111111111"),
        None
    );
}

#[test]
fn ticket_authority_is_the_one_written() {
    let authority = Pubkey::from_str(TICKET_AUTHORITY).unwrap().to_bytes();
    assert_eq!(is_ticket_authority(&authority), Some(true));
    assert_eq!(is_ticket_authority(&[0u8; 32]), Some(false));
    assert_eq!(TICKET_AUTHORITY, "4jfd5BshR8oK6ezdFxKYia4g2Z9dJK6tZnpLfKSw1C3C");
}

#[test]
fn address_is_derived_from_seeds() {
    let program = Pubkey::from_str(TOKEN_PROGRAM).unwrap();
    let seeds = vec![b"vault".to_vec(), vec![1u8, 2, 3]];
    let (address, _) = Pubkey::find_program_address(&[b"vault", &[1u8, 2, 3]], &program);
    assert_eq!(derives_to(&address.to_bytes(), &seeds, TOKEN_PROGRAM), Some(true));
    assert_eq!(derives_to(&program.to_bytes(), &seeds, TOKEN_PROGRAM), Some(false));
    assert_eq!(derives_to(&address.to_bytes(), &seeds, SYSTEM), Some(false));
    let fewer = vec![b"vault".to_vec()];
    assert_eq!(derives_to(&address.to_bytes(), &fewer, TOKEN_PROGRAM), Some(false));
    let (plain, _) = Pubkey::find_program_address(&[], &program);
    assert_eq!(derives_to(&plain.to_bytes(), &Vec::new(), TOKEN_PROGRAM), Some(true));
}

#[test]
fn address_that_cannot_be_derived() {
    let seeds = vec![vec![0u8; 33]];
    assert_eq!(derives_to(&[0u8; 32], &seeds, TOKEN_PROGRAM), None);
    let many = vec![vec![1u8]; 17];
    assert_eq!(derives_to(&[0u8; 32], &many, TOKEN_PROGRAM), None);
    assert_eq!(derives_to(&[0u8; 32], &Vec::new(), "nobody"), None);
}

#[test]
fn nft_is_examined_in_three_steps() {
    assert_eq!(&MINT_SEED[..], b"mint");
    let issuer = Pubkey::new_from_array([3u8; 32]);
    let program = Pubkey::from_str(TOKEN_PROGRAM).unwrap();
    let (mint, _) = Pubkey::find_program_address(&[b"mint", b"Box #1"], &program);
    let signer = [9u8; 32];
    let issuer_text = issuer.to_string();

    assert_eq!(
        nft_is_acceptable(
            &signer,
            &signer,
            &issuer.to_bytes(),
            &mint.to_bytes(),
            "Box #1",
            &issuer_text,
            TOKEN_PROGRAM
        ),
        Some(true)
    );
    // another name derives another mint
    assert_eq!(
        nft_is_acceptable(
            &signer,
            &signer,
            &issuer.to_bytes(),
            &mint.to_bytes(),
            "Box #2",
            &issuer_text,
            TOKEN_PROGRAM
        ),
        Some(false)
    );
    // another authority
    assert_eq!(
        nft_is_acceptable(
            &signer,
            &signer,
            &[4u8; 32],
            &mint.to_bytes(),
            "Box #1",
            &issuer_text,
            TOKEN_PROGRAM
        ),
        Some(false)
    );
    // another holder: nothing else is looked at
    assert_eq!(
        nft_is_acceptable(&signer, &[8u8; 32], &[4u8; 32], &mint.to_bytes(), "Box #1", "?", "?"),
        Some(false)
    );
    // the authority is compared before the program is read
    assert_eq!(
        nft_is_acceptable(&signer, &signer, &[4u8; 32], &mint.to_bytes(), "Box #1", &issuer_text, "?"),
        Some(false)
    );
    assert_eq!(
        nft_is_acceptable(&signer, &signer, &[4u8; 32], &mint.to_bytes(), "Box #1", "?", TOKEN_PROGRAM),
        None
    );
    assert_eq!(
        nft_is_acceptable(
            &signer,
            &signer,
            &issuer.to_bytes(),
            &mint.to_bytes(),
            "Box #1",
            &issuer_text,
            "?"
        ),
        None
    );
    // a name too long to be a seed
    assert_eq!(
        nft_is_acceptable(
            &signer,
            &signer,
            &issuer.to_bytes(),
            &mint.to_bytes(),
            "a name of more than thirty-two bytes",
            &issuer_text,
            TOKEN_PROGRAM
        ),
        None
    );
}

fn staked(mint: [u8; 32], amount: u64, withdraw_ts: i64) -> Stake {
    Stake {
        bump: 0,
        authority: [3u8; 32],
        init_ts: 0,
        withdraw_ts,
        is_locked: true,
        name: String::new(),
        collections: String::new(),
        rarity: String::new(),
        from_ata: [0u8; 32],
        mint,
        stake_vault: [0u8; 32],
        amount,
    }
}

fn stake_vault() -> StakeVault {
    StakeVault {
        bump: 1,
        name: String::from("main"),
        is_locked: false,
        token_staked: 100,
        nft_staked: 2,
    }
}

#[test]
fn stake_of_tokens_is_told_by_the_mints_text() {
    let token = Pubkey::from_str(TOKEN_PROGRAM).unwrap().to_bytes();
    assert_eq!(is_token_stake(&staked(token, 1, 0), TOKEN_PROGRAM), Some(true));
    assert_eq!(is_token_stake(&staked([5u8; 32], 1, 0), TOKEN_PROGRAM), Some(false));
    assert_eq!(is_token_stake(&staked(token, 1, 0), SYSTEM), Some(false));
    assert_eq!(is_token_stake(&staked(token, 1, 0), "no key"), None);
}

#[test]
fn stake_is_withdrawn_by_the_mints_text() {
    let token = Pubkey::from_str(TOKEN_PROGRAM).unwrap().to_bytes();
    let nft = [8u8; 32];
    let mut vault = stake_vault();

    let tokens = staked(token, 40, 500);
    assert_eq!(
        withdraw_stake_by_mint_text(&tokens, &mut vault, &token, TOKEN_PROGRAM, 500),
        Some(Ok(StakeWithdrawal { amount: 40, close_account: false }))
    );
    assert_eq!(vault.token_staked, 60);
    assert_eq!(vault.nft_staked, 2);

    let one = staked(nft, 40, 0);
    assert_eq!(
        withdraw_stake_by_mint_text(&one, &mut vault, &nft, TOKEN_PROGRAM, 1),
        Some(Ok(StakeWithdrawal { amount: 1, close_account: true }))
    );
    assert_eq!(vault.token_staked, 60);
    assert_eq!(vault.nft_staked, 1);

    // the text is read only once the stake may be withdrawn
    let before = vault.clone();
    assert_eq!(
        withdraw_stake_by_mint_text(&tokens, &mut vault, &nft, "no key", 500),
        Some(Err(TriadProtocolError::Unauthorized))
    );
    assert_eq!(
        withdraw_stake_by_mint_text(&tokens, &mut vault, &token, "no key", 499),
        Some(Err(TriadProtocolError::StakeLocked))
    );
    assert_eq!(withdraw_stake_by_mint_text(&tokens, &mut vault, &token, "no key", 500), None);
    assert_eq!(vault, before);

    let too_much = staked(token, 61, 0);
    assert_eq!(
        withdraw_stake_by_mint_text(&too_much, &mut vault, &token, TOKEN_PROGRAM, 1),
        Some(Err(TriadProtocolError::ArithmeticFailure))
    );
    assert_eq!(vault, before);
}
