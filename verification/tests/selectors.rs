use anchor_lang::solana_program::hash::hash;
use circle_integration::address::Address;
use circle_integration::deposit_for_burn::DepositForBurnParams;
use circle_integration::dispatch::{
    decode_delivery, decode_operation, encode_burn_request, selects, Operation,
    BRIDGE_OUT_SELECTOR, DEPOSIT_FOR_BURN_SELECTOR, HANDLE_RECEIVE_MESSAGE_SELECTOR,
    INITIALIZE_SELECTOR,
};
use circle_integration::initialize::InitializeParams;
use circle_integration::receive::HandleReceiveMessageParams;
use circle_integration::wire::{encode_amount, encode_initialize_params, encode_message};

fn selector(name: &str) -> Vec<u8> {
    hash(format!("global:{}", name).as_bytes()).to_bytes()[..8].to_vec()
}

#[test]
fn selectors_are_the_hashed_names() {
    assert_eq!(INITIALIZE_SELECTOR.to_vec(), selector("initialize"));
    assert_eq!(BRIDGE_OUT_SELECTOR.to_vec(), selector("bridge_out"));
    assert_eq!(HANDLE_RECEIVE_MESSAGE_SELECTOR.to_vec(), selector("handle_receive_message"));
    assert_eq!(DEPOSIT_FOR_BURN_SELECTOR.to_vec(), selector("deposit_for_burn"));
}

#[test]
fn initialize_is_selected_and_decoded() {
    let p = InitializeParams { destination_domain: 7, mint_recipient: Address::new([42u8; 32]) };
    let mut bytes = INITIALIZE_SELECTOR.to_vec();
    bytes.extend_from_slice(&encode_initialize_params(&p));
    assert_eq!(decode_operation(&bytes), Some(Operation::Initialize(p)));
    assert_eq!(decode_operation(&bytes[..43]), None);
}

#[test]
fn bridge_out_is_selected_and_decoded() {
    let mut bytes = BRIDGE_OUT_SELECTOR.to_vec();
    bytes.extend_from_slice(&encode_amount(250));
    assert_eq!(decode_operation(&bytes), Some(Operation::BridgeOut(250)));
    assert_eq!(decode_operation(&bytes[..15]), None);
    assert_eq!(decode_operation(&bytes[..8]), None);
}

#[test]
fn unknown_selector_is_refused() {
    let mut bytes = vec![1u8; 8];
    bytes.extend_from_slice(&encode_amount(250));
    assert_eq!(decode_operation(&bytes), None);
    assert_eq!(decode_operation(&[]), None);
    assert_eq!(decode_operation(&INITIALIZE_SELECTOR[..7]), None);
    let mut other = HANDLE_RECEIVE_MESSAGE_SELECTOR.to_vec();
    other.extend_from_slice(&[0u8; 64]);
    assert_eq!(decode_operation(&other), None);
}

#[test]
fn delivery_is_selected_and_decoded() {
    let p = HandleReceiveMessageParams {
        remote_domain: 3,
        sender: Address::new([8u8; 32]),
        message_body: vec![1, 2, 3],
        authority_bump: 254,
    };
    let mut bytes = HANDLE_RECEIVE_MESSAGE_SELECTOR.to_vec();
    bytes.extend_from_slice(&encode_message(&p).unwrap());
    assert_eq!(decode_delivery(&bytes), Some(p));
    let mut wrong = BRIDGE_OUT_SELECTOR.to_vec();
    wrong.extend_from_slice(&bytes[8..]);
    assert_eq!(decode_delivery(&wrong), None);
    assert_eq!(decode_delivery(&bytes[..bytes.len() - 1]), None);
}

#[test]
fn burn_request_is_selector_then_params() {
    let p = DepositForBurnParams {
        amount: 250,
        destination_domain: 7,
        mint_recipient: Address::new([42u8; 32]),
    };
    let mut expected = vec![215u8, 60, 61, 46, 114, 55, 128, 176];
    expected.extend_from_slice(&[250, 0, 0, 0, 0, 0, 0, 0, 7, 0, 0, 0]);
    expected.extend_from_slice(&[42u8; 32]);
    assert_eq!(encode_burn_request(&p), expected);
}

#[test]
fn selects_compares_the_first_eight_bytes() {
    assert!(selects(&[27, 194, 57, 119, 215, 165, 247, 150, 9], &BRIDGE_OUT_SELECTOR));
    assert!(!selects(&[27, 194, 57, 119, 215, 165, 247, 151, 9], &BRIDGE_OUT_SELECTOR));
    assert!(!selects(&[27, 194, 57, 119, 215, 165, 247], &BRIDGE_OUT_SELECTOR));
}
