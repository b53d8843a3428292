//! The operations as they arrive: an eight-byte selector, then the
//! operation's arguments in their positional encoding.

use crate::deposit_for_burn::DepositForBurnParams;
use crate::initialize::InitializeParams;
use crate::receive::HandleReceiveMessageParams;
use crate::address::seed_of;
use crate::wire::{
    burn_params_bytes, decode_amount, decode_initialize_params, decode_message,
    encode_burn_params, parse_initialize_params, parse_message, push_all,
};
use vstd::bytes::*;
use vstd::prelude::*;
use vstd::slice::*;

verus! {

/// The selector of the initialization.
pub const INITIALIZE_SELECTOR: [u8; 8] = [175, 175, 109, 31, 13, 152, 155, 237];

/// The selector of the bridge-out.
pub const BRIDGE_OUT_SELECTOR: [u8; 8] = [27, 194, 57, 119, 215, 165, 247, 150];

/// The selector of the delivery of a relayed message.
pub const HANDLE_RECEIVE_MESSAGE_SELECTOR: [u8; 8] = [133, 102, 1, 180, 145, 11, 138, 180];

/// The selector of the burn request at the burn target.
pub const DEPOSIT_FOR_BURN_SELECTOR: [u8; 8] = [215, 60, 61, 46, 114, 55, 128, 176];

/// An operation of the bridge with its arguments.
#[derive(Clone, Copy, Debug, PartialEq, Eq)]
pub enum Operation {
    Initialize(InitializeParams),
    BridgeOut(u64),
}

/// An operation with its arguments as plain values.
pub enum OperationView {
    Initialize(u32, Seq<u8>),
    BridgeOut(u64),
}

impl View for Operation {
    type V = OperationView;

    open spec fn view(&self) -> OperationView {
        match self {
            Operation::Initialize(p) => OperationView::Initialize(
                p.destination_domain,
                p.mint_recipient@,
            ),
            Operation::BridgeOut(amount) => OperationView::BridgeOut(*amount),
        }
    }
}

/// What follows the selector.
pub open spec fn arguments(bytes: Seq<u8>) -> Seq<u8>
    recommends
        bytes.len() >= 8,
{
    bytes.subrange(8, bytes.len() as int)
}

/// The operation that `bytes` ask for: the first eight bytes select it, and
/// its arguments must be there in full. `None` for bytes too short, for an
/// unknown selector and for arguments cut short.
pub open spec fn parse_operation(bytes: Seq<u8>) -> Option<OperationView> {
    if bytes.len() < 8 {
        None
    } else if bytes.subrange(0, 8) == INITIALIZE_SELECTOR@ {
        match parse_initialize_params(arguments(bytes)) {
            Some((domain, recipient)) => Some(OperationView::Initialize(domain, recipient)),
            None => None,
        }
    } else if bytes.subrange(0, 8) == BRIDGE_OUT_SELECTOR@ {
        if arguments(bytes).len() < 8 {
            None
        } else {
            Some(OperationView::BridgeOut(spec_u64_from_le_bytes(arguments(bytes).subrange(0, 8))))
        }
    } else {
        None
    }
}

/// The delivery that `bytes` ask for: the selector of the delivery, then the
/// message in full.
pub open spec fn parse_delivery(bytes: Seq<u8>) -> Option<(u32, Seq<u8>, Seq<u8>, u8)> {
    if bytes.len() < 8 || bytes.subrange(0, 8) != HANDLE_RECEIVE_MESSAGE_SELECTOR@ {
        None
    } else {
        parse_message(arguments(bytes))
    }
}

/// Whether `bytes` start with `selector`.
pub fn selects(bytes: &[u8], selector: &[u8; 8]) -> (r: bool)
    ensures
        r == (bytes@.len() >= 8 && bytes@.subrange(0, 8) == selector@),
{
    if bytes.len() < 8 {
        return false;
    }
    let mut i: usize = 0;
    while i < 8
        invariant
            i <= 8,
            bytes@.len() >= 8,
            forall|j: int| 0 <= j < i ==> bytes@[j] == selector@[j],
        decreases 8 - i,
    {
        if bytes[i] != selector[i] {
            proof {
                assert(bytes@.subrange(0, 8)[i as int] == bytes@[i as int]);
            }
            return false;
        }
        i += 1;
    }
    proof {
        assert(bytes@.subrange(0, 8) =~= selector@);
    }
    true
}

/// Reads the operation that `bytes` ask for.
pub fn decode_operation(bytes: &[u8]) -> (r: Option<Operation>)
    ensures
        match r {
            Some(op) => parse_operation(bytes@) == Some(op@),
            None => parse_operation(bytes@) is None,
        },
{
    if bytes.len() < 8 {
        return None;
    }
    let rest = slice_subrange(bytes, 8, bytes.len());
    if selects(bytes, &INITIALIZE_SELECTOR) {
        match decode_initialize_params(rest) {
            Some(p) => Some(Operation::Initialize(p)),
            None => None,
        }
    } else if selects(bytes, &BRIDGE_OUT_SELECTOR) {
        match decode_amount(rest) {
            Some(amount) => Some(Operation::BridgeOut(amount)),
            None => None,
        }
    } else {
        None
    }
}

/// Reads the delivery of a relayed message that `bytes` ask for.
pub fn decode_delivery(bytes: &[u8]) -> (r: Option<HandleReceiveMessageParams>)
    ensures
        match r {
            Some(p) => parse_delivery(bytes@) == Some(
                (p.remote_domain, p.sender@, p.message_body@, p.authority_bump),
            ),
            None => parse_delivery(bytes@) is None,
        },
{
    if !selects(bytes, &HANDLE_RECEIVE_MESSAGE_SELECTOR) {
        return None;
    }
    decode_message(slice_subrange(bytes, 8, bytes.len()))
}

/// The bytes of a burn request as the burn target takes it: its selector,
/// then the request.
pub fn encode_burn_request(p: &DepositForBurnParams) -> (r: Vec<u8>)
    ensures
        r@ == DEPOSIT_FOR_BURN_SELECTOR@ + burn_params_bytes(*p),
        r@.len() == 52,
{
    let mut out = seed_of(&DEPOSIT_FOR_BURN_SELECTOR);
    push_all(&mut out, encode_burn_params(p).as_slice());
    out
}

/// The selectors differ from one another, so no bytes ask for two operations.
pub proof fn lemma_selectors_differ()
    ensures
        INITIALIZE_SELECTOR@ != BRIDGE_OUT_SELECTOR@,
        INITIALIZE_SELECTOR@ != HANDLE_RECEIVE_MESSAGE_SELECTOR@,
        BRIDGE_OUT_SELECTOR@ != HANDLE_RECEIVE_MESSAGE_SELECTOR@,
{
    assert(INITIALIZE_SELECTOR@[0] == 175u8);
    assert(BRIDGE_OUT_SELECTOR@[0] == 27u8);
    assert(HANDLE_RECEIVE_MESSAGE_SELECTOR@[0] == 133u8);
}

} // verus!
