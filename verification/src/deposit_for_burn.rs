//! The interface of the downstream burn target: the accounts and the request
//! of a burn, and the checks that the interface itself makes on them.

use crate::address::{address_view, derive_address, derived, seed_bytes, seed_of, Address};
use crate::error::BridgeError;
use crate::state::{LocalToken, RemoteTokenMessenger, TokenAccount, TokenMessenger};
use vstd::prelude::*;

verus! {

/// The accounts of a burn request, in the order in which the target takes
/// them. Where the interface reads a record, the record stands beside its
/// address, under the same name with `_data`; where an account must sign,
/// whether it did stands under the same name with `_signed`.
#[derive(Clone, Copy, Debug, PartialEq, Eq)]
pub struct DepositForBurnContext {
    pub owner: Address,
    pub owner_signed: bool,
    pub event_rent_payer: Address,
    pub event_rent_payer_signed: bool,
    pub sender_authority_pda: Address,
    pub burn_token_account: Address,
    pub burn_token_account_data: TokenAccount,
    pub message_transmitter: Address,
    pub token_messenger: Address,
    pub token_messenger_data: TokenMessenger,
    pub remote_token_messenger: Address,
    pub remote_token_messenger_data: RemoteTokenMessenger,
    pub token_minter: Address,
    pub local_token: Address,
    pub local_token_data: LocalToken,
    pub burn_token_mint: Address,
    pub message_sent_event_data: Address,
    pub message_sent_event_data_signed: bool,
    pub message_transmitter_program: Address,
    pub token_messenger_minter_program: Address,
    pub token_program: Address,
    pub system_program: Address,
    pub event_authority: Address,
    pub program: Address,
}

/// A burn request: how much, announced to which domain, minted to whom.
#[derive(Clone, Copy, Debug, PartialEq, Eq)]
pub struct DepositForBurnParams {
    pub amount: u64,
    pub destination_domain: u32,
    pub mint_recipient: Address,
}

/// The seed tag of the sender authority: the bytes of `sender_authority`.
pub open spec fn sender_authority_tag() -> Seq<u8> {
    seq![
        115u8, 101u8, 110u8, 100u8, 101u8, 114u8, 95u8, 97u8, 117u8, 116u8, 104u8, 111u8, 114u8,
        105u8, 116u8, 121u8,
    ]
}

/// The seed tag of a limiter record: the bytes of `local_token`.
pub open spec fn local_token_tag() -> Seq<u8> {
    seq![108u8, 111u8, 99u8, 97u8, 108u8, 95u8, 116u8, 111u8, 107u8, 101u8, 110u8]
}

/// Whether the three accounts that must sign a burn request did: the owner
/// of the burn account, the payer of the event and the event account.
pub open spec fn signed(ctx: DepositForBurnContext) -> bool {
    ctx.owner_signed && ctx.event_rent_payer_signed && ctx.message_sent_event_data_signed
}

/// What the interface decides on a request, given the sender authority and
/// the limiter address as derived from the bumps that their records store.
/// The signatures are looked at first: a request that its owner, its payer
/// or its event account did not sign is refused. Then the sender authority
/// is compared, then the burn account's asset and owner, then the
/// destination domain, then the limiter address.
pub open spec fn deposit_for_burn_check(
    ctx: DepositForBurnContext,
    params: DepositForBurnParams,
    sender_authority: Option<Seq<u8>>,
    local_token: Option<Seq<u8>>,
) -> Result<u64, BridgeError> {
    if !signed(ctx) {
        Err(BridgeError::AuthorityMismatch)
    } else if sender_authority != Some(ctx.sender_authority_pda@) {
        Err(BridgeError::AuthorityMismatch)
    } else if ctx.burn_token_account_data.mint@ != ctx.burn_token_mint@
        || ctx.burn_token_account_data.owner@ != ctx.owner@ {
        Err(BridgeError::AuthorityMismatch)
    } else if params.destination_domain != ctx.remote_token_messenger_data.domain {
        Err(BridgeError::InvalidDestinationDomain)
    } else if local_token != Some(ctx.local_token@) {
        Err(BridgeError::AuthorityMismatch)
    } else {
        Ok(0u64)
    }
}

/// Whether one presented address is the derived one, exactly.
pub fn is_derived(presented: &Address, expected: &Option<Address>) -> (r: bool)
    ensures
        r == (address_view(*expected) == Some(presented@)),
{
    match expected {
        Some(a) => a.same(presented),
        None => false,
    }
}

impl DepositForBurnContext {
    /// Decides on a request, with the two derived addresses given.
    pub fn check(
        &self,
        params: &DepositForBurnParams,
        sender_authority: &Option<Address>,
        local_token: &Option<Address>,
    ) -> (r: Result<u64, BridgeError>)
        ensures
            r == deposit_for_burn_check(
                *self,
                *params,
                address_view(*sender_authority),
                address_view(*local_token),
            ),
    {
        if !self.owner_signed || !self.event_rent_payer_signed
            || !self.message_sent_event_data_signed {
            return Err(BridgeError::AuthorityMismatch);
        }
        if !is_derived(&self.sender_authority_pda, sender_authority) {
            return Err(BridgeError::AuthorityMismatch);
        }
        if !self.burn_token_account_data.mint.same(&self.burn_token_mint) {
            return Err(BridgeError::AuthorityMismatch);
        }
        if !self.burn_token_account_data.owner.same(&self.owner) {
            return Err(BridgeError::AuthorityMismatch);
        }
        if params.destination_domain != self.remote_token_messenger_data.domain {
            return Err(BridgeError::InvalidDestinationDomain);
        }
        if !is_derived(&self.local_token, local_token) {
            return Err(BridgeError::AuthorityMismatch);
        }
        Ok(0)
    }

    /// Derives the sender authority under `program`, from its tag and the
    /// bump that the token messenger's record stores.
    pub fn derive_sender_authority(&self, program: &Address) -> (r: Option<Address>)
        ensures
            address_view(r) == derived(
                seq![sender_authority_tag()],
                self.token_messenger_data.authority_bump,
                program@,
            ),
    {
        let tag: [u8; 16] = [
            115u8, 101u8, 110u8, 100u8, 101u8, 114u8, 95u8, 97u8, 117u8, 116u8, 104u8, 111u8,
            114u8, 105u8, 116u8, 121u8,
        ];
        let mut seeds: Vec<Vec<u8>> = Vec::new();
        seeds.push(seed_of(&tag));
        proof {
            assert(seeds@[0]@ =~= sender_authority_tag());
            assert(seed_bytes(seeds@) =~= seq![sender_authority_tag()]);
        }
        derive_address(&seeds, self.token_messenger_data.authority_bump, program)
    }

    /// Derives the limiter address of the burned asset under `program`, from
    /// its tag, the asset and the bump that the limiter's record stores.
    pub fn derive_local_token(&self, program: &Address) -> (r: Option<Address>)
        ensures
            address_view(r) == derived(
                seq![local_token_tag(), self.burn_token_mint@],
                self.local_token_data.bump,
                program@,
            ),
    {
        let tag: [u8; 11] = [
            108u8, 111u8, 99u8, 97u8, 108u8, 95u8, 116u8, 111u8, 107u8, 101u8, 110u8,
        ];
        let mut seeds: Vec<Vec<u8>> = Vec::new();
        seeds.push(seed_of(&tag));
        seeds.push(self.burn_token_mint.to_seed());
        proof {
            assert(seeds@[0]@ =~= local_token_tag());
            assert(seed_bytes(seeds@) =~= seq![local_token_tag(), self.burn_token_mint@]);
        }
        derive_address(&seeds, self.local_token_data.bump, program)
    }
}

/// Checks a burn request against the interface of the burn target, which is
/// the program `program_id`. A request is refused unless its owner, its
/// payer and its event account signed, the burn account holds the burned
/// asset under that owner, the collaborator serves the requested domain, and
/// the sender authority and the limiter address are the derived ones. The
/// interface burns nothing itself and answers 0 to a request that it admits:
/// ceilings, pauses and balances are the target's own.
pub fn deposit_for_burn(
    program_id: &Address,
    ctx: &DepositForBurnContext,
    params: &DepositForBurnParams,
) -> (r: Result<u64, BridgeError>)
    ensures
        r == deposit_for_burn_check(
            *ctx,
            *params,
            derived(
                seq![sender_authority_tag()],
                ctx.token_messenger_data.authority_bump,
                program_id@,
            ),
            derived(
                seq![local_token_tag(), ctx.burn_token_mint@],
                ctx.local_token_data.bump,
                program_id@,
            ),
        ),
{
    let sender_authority = ctx.derive_sender_authority(program_id);
    let local_token = ctx.derive_local_token(program_id);
    ctx.check(params, &sender_authority, &local_token)
}

/// A request whose owner did not sign, or whose burn account is under
/// another owner or holds another asset, is refused, whatever else it
/// presents and whatever the derivations gave.
pub proof fn lemma_unsigned_or_foreign_request_refused(
    ctx: DepositForBurnContext,
    params: DepositForBurnParams,
    sender_authority: Option<Seq<u8>>,
    local_token: Option<Seq<u8>>,
)
    requires
        !ctx.owner_signed || ctx.burn_token_account_data.owner@ != ctx.owner@
            || ctx.burn_token_account_data.mint@ != ctx.burn_token_mint@,
    ensures
        deposit_for_burn_check(ctx, params, sender_authority, local_token) is Err,
{
}

/// A request is admitted only if its owner signed it and the burn account
/// holds the burned asset under that owner; the payer of the event and the
/// event account must have signed too.
pub proof fn lemma_admitted_request_is_the_owners(
    ctx: DepositForBurnContext,
    params: DepositForBurnParams,
    sender_authority: Option<Seq<u8>>,
    local_token: Option<Seq<u8>>,
)
    requires
        deposit_for_burn_check(ctx, params, sender_authority, local_token) is Ok,
    ensures
        ctx.owner_signed,
        ctx.event_rent_payer_signed,
        ctx.message_sent_event_data_signed,
        ctx.burn_token_account_data.owner@ == ctx.owner@,
        ctx.burn_token_account_data.mint@ == ctx.burn_token_mint@,
        params.destination_domain == ctx.remote_token_messenger_data.domain,
        sender_authority == Some(ctx.sender_authority_pda@),
        local_token == Some(ctx.local_token@),
{
}

} // verus!
