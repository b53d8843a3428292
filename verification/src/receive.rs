//! The acceptance gate for relayed messages: only the message transmitter's
//! relay authority for this program may deliver one.

use crate::address::{address_view, derive_address, derived, seed_bytes, seed_of, Address};
use crate::error::BridgeError;
use vstd::prelude::*;

verus! {

/// The seed tag of the relay authority: the bytes of
/// `message_transmitter_authority`.
pub open spec fn relay_tag() -> Seq<u8> {
    seq![
        109u8, 101u8, 115u8, 115u8, 97u8, 103u8, 101u8, 95u8, 116u8, 114u8, 97u8, 110u8, 115u8,
        109u8, 105u8, 116u8, 116u8, 101u8, 114u8, 95u8, 97u8, 117u8, 116u8, 104u8, 111u8, 114u8,
        105u8, 116u8, 121u8,
    ]
}

/// The seeds of the relay authority for the receiving program `receiver`,
/// without the bump: the tag, then the receiver's address.
pub open spec fn relay_seed_bytes(receiver: Seq<u8>) -> Seq<Seq<u8>> {
    seq![relay_tag(), receiver]
}

/// A relayed message as it is delivered.
#[derive(Clone, Debug, PartialEq, Eq)]
pub struct HandleReceiveMessageParams {
    pub remote_domain: u32,
    pub sender: Address,
    pub message_body: Vec<u8>,
    pub authority_bump: u8,
}

/// The caller of a delivery: the account presented as the relay authority,
/// and whether it signed the call.
#[derive(Clone, Copy, Debug, PartialEq, Eq)]
pub struct HandleReceiveMessageContext {
    pub authority_pda: Address,
    pub authority_signed: bool,
}

/// Whether a delivery is accepted, given the relay authority as derived from
/// the bump that the message carries: the caller must have signed and be
/// that address exactly.
pub open spec fn accepted(ctx: HandleReceiveMessageContext, relay: Option<Seq<u8>>) -> Result<
    (),
    BridgeError,
> {
    if ctx.authority_signed && relay == Some(ctx.authority_pda@) {
        Ok(())
    } else {
        Err(BridgeError::UnauthorizedCaller)
    }
}

/// The seeds of the relay authority for `receiver`, without the bump.
pub fn relay_seeds(receiver: &Address) -> (r: Vec<Vec<u8>>)
    ensures
        seed_bytes(r@) == relay_seed_bytes(receiver@),
{
    let tag: [u8; 29] = [
        109u8, 101u8, 115u8, 115u8, 97u8, 103u8, 101u8, 95u8, 116u8, 114u8, 97u8, 110u8, 115u8,
        109u8, 105u8, 116u8, 116u8, 101u8, 114u8, 95u8, 97u8, 117u8, 116u8, 104u8, 111u8, 114u8,
        105u8, 116u8, 121u8,
    ];
    let first = seed_of(&tag);
    let mut seeds: Vec<Vec<u8>> = Vec::new();
    seeds.push(first);
    seeds.push(receiver.to_seed());
    proof {
        assert(seeds@[0]@ =~= relay_tag());
        assert(seed_bytes(seeds@) =~= relay_seed_bytes(receiver@));
    }
    seeds
}

impl HandleReceiveMessageContext {
    /// Decides on the caller, given the relay authority as derived. Nothing
    /// of the message enters into it.
    pub fn check_caller(&self, relay: Option<Address>) -> (r: Result<(), BridgeError>)
        ensures
            r == accepted(*self, address_view(relay)),
    {
        if !self.authority_signed {
            return Err(BridgeError::UnauthorizedCaller);
        }
        match relay {
            Some(a) => {
                if a.same(&self.authority_pda) {
                    Ok(())
                } else {
                    Err(BridgeError::UnauthorizedCaller)
                }
            },
            None => Err(BridgeError::UnauthorizedCaller),
        }
    }
}

/// Accepts a relayed message for the program `program_id` if and only if its
/// caller signed and is the relay authority that the program
/// `message_transmitter` derives for this receiver with the bump that the
/// message carries; otherwise fails with `UnauthorizedCaller`. The domain,
/// the sender and the body play no part in the decision.
pub fn handle_receive_message(
    program_id: &Address,
    message_transmitter: &Address,
    ctx: &HandleReceiveMessageContext,
    params: &HandleReceiveMessageParams,
) -> (r: Result<(), BridgeError>)
    ensures
        r == accepted(
            *ctx,
            derived(relay_seed_bytes(program_id@), params.authority_bump, message_transmitter@),
        ),
{
    let seeds = relay_seeds(program_id);
    let relay = derive_address(&seeds, params.authority_bump, message_transmitter);
    ctx.check_caller(relay)
}

/// A caller that is not the derived relay authority is refused with
/// `UnauthorizedCaller`, and so is one that did not sign.
pub proof fn lemma_other_caller_refused(ctx: HandleReceiveMessageContext, relay: Option<Seq<u8>>)
    requires
        !ctx.authority_signed || relay != Some(ctx.authority_pda@),
    ensures
        accepted(ctx, relay) == Err::<(), BridgeError>(BridgeError::UnauthorizedCaller),
{
}

/// The relay authority itself, having signed, is accepted.
pub proof fn lemma_relay_accepted(ctx: HandleReceiveMessageContext, relay: Option<Seq<u8>>)
    requires
        ctx.authority_signed,
        relay == Some(ctx.authority_pda@),
    ensures
        accepted(ctx, relay) is Ok,
{
}

} // verus!
