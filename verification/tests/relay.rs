use anchor_lang::prelude::Pubkey;
use circle_integration::address::{find, Address, SOLANA_MESSENGER_ID};
use circle_integration::error::BridgeError;
use circle_integration::receive::{
    handle_receive_message, relay_seeds, HandleReceiveMessageContext, HandleReceiveMessageParams,
};

fn transmitter() -> Address {
    Address::new([33u8; 32])
}

fn relay() -> (Address, u8) {
    let receiver = Address::new(SOLANA_MESSENGER_ID);
    find(&relay_seeds(&receiver), &transmitter()).unwrap()
}

#[test]
fn relay_authority_is_the_chain_derivation() {
    let (expected, bump) = Pubkey::find_program_address(
        &[b"message_transmitter_authority", &SOLANA_MESSENGER_ID],
        &Pubkey::new_from_array([33u8; 32]),
    );
    assert_eq!(relay(), (Address::new(expected.to_bytes()), bump));
}

#[test]
fn empty_message_from_the_relay_authority_is_accepted() {
    let (authority, bump) = relay();
    let ctx = HandleReceiveMessageContext { authority_pda: authority, authority_signed: true };
    let params = HandleReceiveMessageParams {
        remote_domain: 0,
        sender: Address::new([0u8; 32]),
        message_body: vec![],
        authority_bump: bump,
    };
    let receiver = Address::new(SOLANA_MESSENGER_ID);
    assert_eq!(handle_receive_message(&receiver, &transmitter(), &ctx, &params), Ok(()));
}

#[test]
fn message_from_the_relay_authority_is_accepted() {
    let (authority, bump) = relay();
    let ctx = HandleReceiveMessageContext { authority_pda: authority, authority_signed: true };
    let params = HandleReceiveMessageParams {
        remote_domain: 3,
        sender: Address::new([8u8; 32]),
        message_body: vec![1, 2, 3],
        authority_bump: bump,
    };
    let receiver = Address::new(SOLANA_MESSENGER_ID);
    assert_eq!(handle_receive_message(&receiver, &transmitter(), &ctx, &params), Ok(()));
}

#[test]
fn another_caller_is_refused_whatever_the_message() {
    let (authority, bump) = relay();
    let receiver = Address::new(SOLANA_MESSENGER_ID);
    let mut near = authority;
    near.bytes[0] ^= 1;
    for caller in [near, receiver, transmitter(), Address::new([0u8; 32])] {
        let ctx = HandleReceiveMessageContext { authority_pda: caller, authority_signed: true };
        for body in [vec![], vec![1u8, 2, 3]] {
            let params = HandleReceiveMessageParams {
                remote_domain: 3,
                sender: Address::new([8u8; 32]),
                message_body: body,
                authority_bump: bump,
            };
            assert_eq!(
                handle_receive_message(&receiver, &transmitter(), &ctx, &params),
                Err(BridgeError::UnauthorizedCaller)
            );
        }
    }
}

#[test]
fn relay_authority_that_did_not_sign_is_refused() {
    let (authority, bump) = relay();
    let ctx = HandleReceiveMessageContext { authority_pda: authority, authority_signed: false };
    let params = HandleReceiveMessageParams {
        remote_domain: 0,
        sender: Address::new([0u8; 32]),
        message_body: vec![],
        authority_bump: bump,
    };
    let receiver = Address::new(SOLANA_MESSENGER_ID);
    assert_eq!(
        handle_receive_message(&receiver, &transmitter(), &ctx, &params),
        Err(BridgeError::UnauthorizedCaller)
    );
}

#[test]
fn wrong_bump_is_refused() {
    let (authority, bump) = relay();
    let ctx = HandleReceiveMessageContext { authority_pda: authority, authority_signed: true };
    let params = HandleReceiveMessageParams {
        remote_domain: 0,
        sender: Address::new([0u8; 32]),
        message_body: vec![],
        authority_bump: bump.wrapping_sub(1),
    };
    let receiver = Address::new(SOLANA_MESSENGER_ID);
    assert_eq!(
        handle_receive_message(&receiver, &transmitter(), &ctx, &params),
        Err(BridgeError::UnauthorizedCaller)
    );
}

#[test]
fn authority_of_another_transmitter_is_refused() {
    let receiver = Address::new(SOLANA_MESSENGER_ID);
    let other = Address::new([34u8; 32]);
    let (authority, bump) = find(&relay_seeds(&receiver), &other).unwrap();
    let ctx = HandleReceiveMessageContext { authority_pda: authority, authority_signed: true };
    let params = HandleReceiveMessageParams {
        remote_domain: 0,
        sender: Address::new([0u8; 32]),
        message_body: vec![],
        authority_bump: bump,
    };
    assert_eq!(
        handle_receive_message(&receiver, &transmitter(), &ctx, &params),
        Err(BridgeError::UnauthorizedCaller)
    );
    assert_eq!(handle_receive_message(&receiver, &other, &ctx, &params), Ok(()));
}

#[test]
fn check_caller_compares_exactly() {
    let a = Address::new([5u8; 32]);
    let ctx = HandleReceiveMessageContext { authority_pda: a, authority_signed: true };
    assert_eq!(ctx.check_caller(Some(a)), Ok(()));
    assert_eq!(ctx.check_caller(None), Err(BridgeError::UnauthorizedCaller));
    let mut b = a;
    b.bytes[31] = 4;
    assert_eq!(ctx.check_caller(Some(b)), Err(BridgeError::UnauthorizedCaller));
}
