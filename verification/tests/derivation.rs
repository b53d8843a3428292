use std::str::FromStr;

use anchor_lang::prelude::Pubkey;
use circle_integration::address::{
    derive_address, find, find_associated_token_address, Address, ASSOCIATED_TOKEN_PROGRAM_ID,
    CIRCLE_INTEGRATION_ID, SOLANA_MESSENGER_ID, SYSTEM_PROGRAM_ID, TOKEN_MESSENGER_MINTER_ID,
    TOKEN_PROGRAM_ID,
};
use circle_integration::initialize::pool_seeds;
use circle_integration::receive::relay_seeds;

fn key(text: &str) -> [u8; 32] {
    Pubkey::from_str(text).unwrap().to_bytes()
}

#[test]
fn program_ids_are_the_declared_ones() {
    assert_eq!(CIRCLE_INTEGRATION_ID, key("742CfUUTjqb8etrFz4b1TZ5SRTHyUP8uhh8DAR2fwBnS"));
    assert_eq!(TOKEN_MESSENGER_MINTER_ID, key("CCTPiPYPc6AsJuwueEnWgSgucamXDZwBd53dQ11YiKX3"));
    assert_eq!(SOLANA_MESSENGER_ID, key("mesmzuHztrYrrGFSz3nm7uQzThz3t3JNdBvioj1YCT9"));
    assert_eq!(SYSTEM_PROGRAM_ID, anchor_lang::system_program::ID.to_bytes());
    assert_eq!(TOKEN_PROGRAM_ID, anchor_spl::token::ID.to_bytes());
    assert_eq!(ASSOCIATED_TOKEN_PROGRAM_ID, anchor_spl::associated_token::ID.to_bytes());
}

#[test]
fn pool_seeds_are_the_pool_tag() {
    assert_eq!(pool_seeds(), vec![b"pool".to_vec()]);
}

#[test]
fn relay_seeds_are_tag_then_receiver() {
    let receiver = Address::new(SOLANA_MESSENGER_ID);
    assert_eq!(
        relay_seeds(&receiver),
        vec![b"message_transmitter_authority".to_vec(), SOLANA_MESSENGER_ID.to_vec()]
    );
}

#[test]
fn find_agrees_with_the_chain_derivation() {
    let program = Address::new(CIRCLE_INTEGRATION_ID);
    let (expected, bump) =
        Pubkey::find_program_address(&[b"pool"], &Pubkey::new_from_array(CIRCLE_INTEGRATION_ID));
    let found = find(&pool_seeds(), &program);
    assert_eq!(found, Some((Address::new(expected.to_bytes()), bump)));
    assert_ne!(found.unwrap().0, program);
}

#[test]
fn derive_with_the_found_bump_gives_the_found_address() {
    let program = Address::new(CIRCLE_INTEGRATION_ID);
    let (address, bump) = find(&pool_seeds(), &program).unwrap();
    assert_eq!(derive_address(&pool_seeds(), bump, &program), Some(address));
}

#[test]
fn derive_agrees_with_the_chain_derivation_for_every_bump() {
    let program = Address::new(CIRCLE_INTEGRATION_ID);
    let owner = Pubkey::new_from_array(CIRCLE_INTEGRATION_ID);
    let mut some = 0;
    for bump in 0..=255u8 {
        let expected = Pubkey::create_program_address(&[b"pool", &[bump]], &owner)
            .ok()
            .map(|k| Address::new(k.to_bytes()));
        if expected.is_some() {
            some += 1;
        }
        assert_eq!(derive_address(&pool_seeds(), bump, &program), expected);
    }
    assert!(some > 0 && some < 256);
}

#[test]
fn derive_depends_on_the_program() {
    let a = Address::new(CIRCLE_INTEGRATION_ID);
    let b = Address::new(SOLANA_MESSENGER_ID);
    let (pa, _) = find(&pool_seeds(), &a).unwrap();
    let (pb, _) = find(&pool_seeds(), &b).unwrap();
    assert_ne!(pa, pb);
}

#[test]
fn derive_refuses_a_seed_that_is_too_long() {
    let program = Address::new(CIRCLE_INTEGRATION_ID);
    let seeds = vec![vec![7u8; 33]];
    assert_eq!(derive_address(&seeds, 255, &program), None);
    assert_eq!(find(&seeds, &program), None);
}

#[test]
fn derive_refuses_too_many_seeds() {
    let program = Address::new(CIRCLE_INTEGRATION_ID);
    let seeds = vec![vec![1u8]; 16];
    assert_eq!(derive_address(&seeds, 255, &program), None);
    assert_eq!(find(&seeds, &program), None);
}

#[test]
fn associated_token_address_is_the_chain_one() {
    let wallet = Address::new([3u8; 32]);
    let mint = Address::new([9u8; 32]);
    let expected = anchor_spl::associated_token::get_associated_token_address(
        &Pubkey::new_from_array([3u8; 32]),
        &Pubkey::new_from_array([9u8; 32]),
    );
    let found = find_associated_token_address(&wallet, &mint).unwrap();
    assert_eq!(found.0, Address::new(expected.to_bytes()));
}

#[test]
fn same_is_exact_equality() {
    let a = Address::new([5u8; 32]);
    let mut bytes = [5u8; 32];
    assert!(a.same(&Address::new(bytes)));
    bytes[31] = 6;
    assert!(!a.same(&Address::new(bytes)));
    bytes[31] = 5;
    bytes[0] = 4;
    assert!(!a.same(&Address::new(bytes)));
}

#[test]
fn to_seed_is_the_bytes() {
    let mut bytes = [0u8; 32];
    for i in 0..32 {
        bytes[i] = i as u8;
    }
    assert_eq!(Address::new(bytes).to_seed(), bytes.to_vec());
}
