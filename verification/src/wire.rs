//! The positional encoding of the operations' arguments: integers of fixed
//! width in little-endian order, addresses as their 32 bytes, and a byte
//! sequence behind its length as a 32-bit integer.

use crate::address::Address;
use crate::deposit_for_burn::DepositForBurnParams;
use crate::initialize::InitializeParams;
use crate::receive::HandleReceiveMessageParams;
use crate::state::Pool;
use vstd::bytes::*;
use vstd::prelude::*;
use vstd::slice::*;

verus! {

/// The encoding of the arguments of an initialization: the destination
/// domain, then the recipient.
pub open spec fn initialize_params_bytes(p: InitializeParams) -> Seq<u8> {
    spec_u32_to_le_bytes(p.destination_domain) + p.mint_recipient@
}

/// What the first 36 bytes of `bytes` say as arguments of an initialization:
/// the destination domain and the recipient's bytes. `None` if too short.
pub open spec fn parse_initialize_params(bytes: Seq<u8>) -> Option<(u32, Seq<u8>)> {
    if bytes.len() < 36 {
        None
    } else {
        Some((spec_u32_from_le_bytes(bytes.subrange(0, 4)), bytes.subrange(4, 36)))
    }
}

/// The encoding of a burn request: the amount, the destination domain, the
/// recipient.
pub open spec fn burn_params_bytes(p: DepositForBurnParams) -> Seq<u8> {
    spec_u64_to_le_bytes(p.amount) + spec_u32_to_le_bytes(p.destination_domain)
        + p.mint_recipient@
}

/// What the first 44 bytes of `bytes` say as a burn request: the amount, the
/// destination domain and the recipient's bytes. `None` if too short.
pub open spec fn parse_burn_params(bytes: Seq<u8>) -> Option<(u64, u32, Seq<u8>)> {
    if bytes.len() < 44 {
        None
    } else {
        Some(
            (
                spec_u64_from_le_bytes(bytes.subrange(0, 8)),
                spec_u32_from_le_bytes(bytes.subrange(8, 12)),
                bytes.subrange(12, 44),
            ),
        )
    }
}

/// The stored layout of a pool record: the asset, the destination domain,
/// the recipient, the bump.
pub open spec fn pool_bytes(p: Pool) -> Seq<u8> {
    p.mint@ + spec_u32_to_le_bytes(p.destination_domain) + p.mint_recipient@ + seq![p.bump]
}

/// What the first 69 bytes of `bytes` say as a pool record: the asset's
/// bytes, the destination domain, the recipient's bytes and the bump. `None`
/// if too short.
pub open spec fn parse_pool(bytes: Seq<u8>) -> Option<(Seq<u8>, u32, Seq<u8>, u8)> {
    if bytes.len() < 69 {
        None
    } else {
        Some(
            (
                bytes.subrange(0, 32),
                spec_u32_from_le_bytes(bytes.subrange(32, 36)),
                bytes.subrange(36, 68),
                bytes[68],
            ),
        )
    }
}

/// The encoding of a relayed message: the remote domain, the sender, the
/// length of the body, the body, the bump of the relay authority.
pub open spec fn message_bytes(
    remote_domain: u32,
    sender: Seq<u8>,
    body: Seq<u8>,
    authority_bump: u8,
) -> Seq<u8>
    recommends
        sender.len() == 32,
        body.len() <= u32::MAX,
{
    spec_u32_to_le_bytes(remote_domain) + sender + spec_u32_to_le_bytes(body.len() as u32) + body
        + seq![authority_bump]
}

/// The length that a relayed message announces for its body.
pub open spec fn announced_body_len(bytes: Seq<u8>) -> int
    recommends
        bytes.len() >= 40,
{
    spec_u32_from_le_bytes(bytes.subrange(36, 40)) as int
}

/// What the start of `bytes` says as a relayed message: the remote domain,
/// the sender's bytes, the body and the bump. `None` if the bytes end before
/// the message does.
pub open spec fn parse_message(bytes: Seq<u8>) -> Option<(u32, Seq<u8>, Seq<u8>, u8)> {
    if bytes.len() < 40 || bytes.len() < 41 + announced_body_len(bytes) {
        None
    } else {
        Some(
            (
                spec_u32_from_le_bytes(bytes.subrange(0, 4)),
                bytes.subrange(4, 36),
                bytes.subrange(40, 40 + announced_body_len(bytes)),
                bytes[40 + announced_body_len(bytes)],
            ),
        )
    }
}

/// The address whose bytes are `bytes`; `None` unless there are exactly 32.
pub fn address_from_slice(bytes: &[u8]) -> (r: Option<Address>)
    ensures
        match r {
            Some(a) => a@ == bytes@,
            None => bytes@.len() != 32,
        },
{
    if bytes.len() != 32 {
        return None;
    }
    let mut out: [u8; 32] = [0u8; 32];
    let mut i: usize = 0;
    while i < 32
        invariant
            i <= 32,
            bytes@.len() == 32,
            forall|j: int| 0 <= j < i ==> out@[j] == bytes@[j],
        decreases 32 - i,
    {
        out[i] = bytes[i];
        i += 1;
    }
    proof {
        assert(out@ =~= bytes@);
    }
    Some(Address { bytes: out })
}

/// Appends the bytes of `src` to `out`.
pub fn push_all(out: &mut Vec<u8>, src: &[u8])
    ensures
        final(out)@ == old(out)@ + src@,
{
    let ghost before = out@;
    let mut i: usize = 0;
    while i < src.len()
        invariant
            i <= src@.len(),
            out@ == before + src@.subrange(0, i as int),
        decreases src@.len() - i,
    {
        out.push(src[i]);
        proof {
            assert(out@ =~= before + src@.subrange(0, i + 1));
        }
        i += 1;
    }
    proof {
        assert(src@.subrange(0, src@.len() as int) =~= src@);
    }
}

/// Encodes the arguments of an initialization.
pub fn encode_initialize_params(p: &InitializeParams) -> (r: Vec<u8>)
    ensures
        r@ == initialize_params_bytes(*p),
        r@.len() == 36,
{
    let mut out = u32_to_le_bytes(p.destination_domain);
    push_all(&mut out, p.mint_recipient.to_seed().as_slice());
    out
}

/// Decodes the arguments of an initialization from the start of `bytes`.
/// Succeeds exactly where 36 bytes are there; what follows them is ignored.
pub fn decode_initialize_params(bytes: &[u8]) -> (r: Option<InitializeParams>)
    ensures
        match r {
            Some(p) => parse_initialize_params(bytes@) == Some(
                (p.destination_domain, p.mint_recipient@),
            ),
            None => parse_initialize_params(bytes@) is None,
        },
{
    if bytes.len() < 36 {
        return None;
    }
    let destination_domain = u32_from_le_bytes(slice_subrange(bytes, 0, 4));
    match address_from_slice(slice_subrange(bytes, 4, 36)) {
        Some(mint_recipient) => Some(InitializeParams { destination_domain, mint_recipient }),
        None => None,
    }
}

/// Encodes the amount of a bridge-out: its eight bytes, lowest first.
pub fn encode_amount(amount: u64) -> (r: Vec<u8>)
    ensures
        r@ == spec_u64_to_le_bytes(amount),
        r@.len() == 8,
{
    u64_to_le_bytes(amount)
}

/// Decodes the amount of a bridge-out from the start of `bytes`. Succeeds
/// exactly where 8 bytes are there.
pub fn decode_amount(bytes: &[u8]) -> (r: Option<u64>)
    ensures
        r == if bytes@.len() < 8 {
            None
        } else {
            Some(spec_u64_from_le_bytes(bytes@.subrange(0, 8)))
        },
{
    if bytes.len() < 8 {
        return None;
    }
    Some(u64_from_le_bytes(slice_subrange(bytes, 0, 8)))
}

/// Encodes a burn request.
pub fn encode_burn_params(p: &DepositForBurnParams) -> (r: Vec<u8>)
    ensures
        r@ == burn_params_bytes(*p),
        r@.len() == 44,
{
    let mut out = u64_to_le_bytes(p.amount);
    push_all(&mut out, u32_to_le_bytes(p.destination_domain).as_slice());
    push_all(&mut out, p.mint_recipient.to_seed().as_slice());
    out
}

/// Decodes a burn request from the start of `bytes`. Succeeds exactly where
/// 44 bytes are there.
pub fn decode_burn_params(bytes: &[u8]) -> (r: Option<DepositForBurnParams>)
    ensures
        match r {
            Some(p) => parse_burn_params(bytes@) == Some(
                (p.amount, p.destination_domain, p.mint_recipient@),
            ),
            None => parse_burn_params(bytes@) is None,
        },
{
    if bytes.len() < 44 {
        return None;
    }
    let amount = u64_from_le_bytes(slice_subrange(bytes, 0, 8));
    let destination_domain = u32_from_le_bytes(slice_subrange(bytes, 8, 12));
    match address_from_slice(slice_subrange(bytes, 12, 44)) {
        Some(mint_recipient) => Some(
            DepositForBurnParams { amount, destination_domain, mint_recipient },
        ),
        None => None,
    }
}

/// Encodes a pool record in its stored layout.
pub fn encode_pool(p: &Pool) -> (r: Vec<u8>)
    ensures
        r@ == pool_bytes(*p),
        r@.len() == 69,
{
    let mut out = p.mint.to_seed();
    push_all(&mut out, u32_to_le_bytes(p.destination_domain).as_slice());
    push_all(&mut out, p.mint_recipient.to_seed().as_slice());
    out.push(p.bump);
    proof {
        assert(out@ =~= pool_bytes(*p));
    }
    out
}

/// Decodes a pool record from the start of `bytes`. Succeeds exactly where
/// 69 bytes are there.
pub fn decode_pool(bytes: &[u8]) -> (r: Option<Pool>)
    ensures
        match r {
            Some(p) => parse_pool(bytes@) == Some(
                (p.mint@, p.destination_domain, p.mint_recipient@, p.bump),
            ),
            None => parse_pool(bytes@) is None,
        },
{
    if bytes.len() < 69 {
        return None;
    }
    let destination_domain = u32_from_le_bytes(slice_subrange(bytes, 32, 36));
    let bump = bytes[68];
    match (
        address_from_slice(slice_subrange(bytes, 0, 32)),
        address_from_slice(slice_subrange(bytes, 36, 68)),
    ) {
        (Some(mint), Some(mint_recipient)) => Some(
            Pool { mint, destination_domain, mint_recipient, bump },
        ),
        _ => None,
    }
}

/// Decodes a relayed message from the start of `bytes`. Succeeds exactly
/// where the bytes hold the fixed fields, the body in the length that is
/// announced, and the bump.
pub fn decode_message(bytes: &[u8]) -> (r: Option<HandleReceiveMessageParams>)
    ensures
        match r {
            Some(p) => parse_message(bytes@) == Some(
                (p.remote_domain, p.sender@, p.message_body@, p.authority_bump),
            ),
            None => parse_message(bytes@) is None,
        },
{
    if bytes.len() < 40 {
        return None;
    }
    let remote_domain = u32_from_le_bytes(slice_subrange(bytes, 0, 4));
    let body_len = u32_from_le_bytes(slice_subrange(bytes, 36, 40));
    let rest: usize = bytes.len() - 40;
    if rest == 0 || rest - 1 < body_len as usize {
        return None;
    }
    let end: usize = 40 + body_len as usize;
    let message_body = slice_to_vec(slice_subrange(bytes, 40, end));
    let authority_bump = bytes[end];
    match address_from_slice(slice_subrange(bytes, 4, 36)) {
        Some(sender) => Some(
            HandleReceiveMessageParams { remote_domain, sender, message_body, authority_bump },
        ),
        None => None,
    }
}

/// Encodes a relayed message; `None` where the body is longer than a 32-bit
/// length can announce.
pub fn encode_message(p: &HandleReceiveMessageParams) -> (r: Option<Vec<u8>>)
    ensures
        match r {
            Some(bytes) => p.message_body@.len() <= u32::MAX && bytes@ == message_bytes(
                p.remote_domain,
                p.sender@,
                p.message_body@,
                p.authority_bump,
            ),
            None => p.message_body@.len() > u32::MAX,
        },
{
    if p.message_body.len() > 0xffff_ffff {
        return None;
    }
    let mut out = u32_to_le_bytes(p.remote_domain);
    push_all(&mut out, p.sender.to_seed().as_slice());
    push_all(&mut out, u32_to_le_bytes(p.message_body.len() as u32).as_slice());
    push_all(&mut out, p.message_body.as_slice());
    out.push(p.authority_bump);
    proof {
        assert(out@ =~= message_bytes(
            p.remote_domain,
            p.sender@,
            p.message_body@,
            p.authority_bump,
        ));
    }
    Some(out)
}

/// Decoding what was encoded gives the arguments of an initialization back,
/// whatever bytes follow.
pub proof fn lemma_initialize_params_round_trip(p: InitializeParams, rest: Seq<u8>)
    ensures
        parse_initialize_params(initialize_params_bytes(p) + rest) == Some(
            (p.destination_domain, p.mint_recipient@),
        ),
{
    lemma_auto_spec_u32_to_from_le_bytes();
    let bytes = initialize_params_bytes(p) + rest;
    assert(bytes.subrange(0, 4) =~= spec_u32_to_le_bytes(p.destination_domain));
    assert(bytes.subrange(4, 36) =~= p.mint_recipient@);
}

/// Decoding a stored pool record gives the record back, whatever bytes
/// follow.
pub proof fn lemma_pool_round_trip(p: Pool, rest: Seq<u8>)
    ensures
        parse_pool(pool_bytes(p) + rest) == Some(
            (p.mint@, p.destination_domain, p.mint_recipient@, p.bump),
        ),
{
    lemma_auto_spec_u32_to_from_le_bytes();
    let bytes = pool_bytes(p) + rest;
    assert(bytes.subrange(0, 32) =~= p.mint@);
    assert(bytes.subrange(32, 36) =~= spec_u32_to_le_bytes(p.destination_domain));
    assert(bytes.subrange(36, 68) =~= p.mint_recipient@);
    assert(bytes[68] == p.bump);
}

/// Decoding what was encoded gives the burn request back, whatever bytes
/// follow.
pub proof fn lemma_burn_params_round_trip(p: DepositForBurnParams, rest: Seq<u8>)
    ensures
        parse_burn_params(burn_params_bytes(p) + rest) == Some(
            (p.amount, p.destination_domain, p.mint_recipient@),
        ),
{
    lemma_auto_spec_u32_to_from_le_bytes();
    lemma_auto_spec_u64_to_from_le_bytes();
    let bytes = burn_params_bytes(p) + rest;
    assert(bytes.subrange(0, 8) =~= spec_u64_to_le_bytes(p.amount));
    assert(bytes.subrange(8, 12) =~= spec_u32_to_le_bytes(p.destination_domain));
    assert(bytes.subrange(12, 44) =~= p.mint_recipient@);
}

/// Decoding what was encoded gives the relayed message back, whatever bytes
/// follow.
pub proof fn lemma_message_round_trip(
    remote_domain: u32,
    sender: Seq<u8>,
    body: Seq<u8>,
    authority_bump: u8,
    rest: Seq<u8>,
)
    requires
        sender.len() == 32,
        body.len() <= u32::MAX,
    ensures
        parse_message(message_bytes(remote_domain, sender, body, authority_bump) + rest) == Some(
            (remote_domain, sender, body, authority_bump),
        ),
{
    lemma_auto_spec_u32_to_from_le_bytes();
    let bytes = message_bytes(remote_domain, sender, body, authority_bump) + rest;
    assert(bytes.subrange(0, 4) =~= spec_u32_to_le_bytes(remote_domain));
    assert(bytes.subrange(4, 36) =~= sender);
    assert(bytes.subrange(36, 40) =~= spec_u32_to_le_bytes(body.len() as u32));
    assert(announced_body_len(bytes) == body.len());
    assert(bytes.subrange(40, 40 + body.len() as int) =~= body);
    assert(bytes[40 + body.len() as int] == authority_bump);
}

} // verus!
