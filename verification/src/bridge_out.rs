//! The bridge-out coordinator: checks the presented accounts, composes the
//! burn request from the pool's record and settles it against what the burn
//! target answered.

use crate::address::{
    address_view, associated_token_seeds, derive_address, derived, find_associated_token_address,
    found, seed_bytes, Address, ASSOCIATED_TOKEN_PROGRAM_ID, SYSTEM_PROGRAM_ID,
    TOKEN_MESSENGER_MINTER_ID, TOKEN_PROGRAM_ID,
};
use crate::deposit_for_burn::{
    deposit_for_burn_check, is_derived, local_token_tag, sender_authority_tag,
    DepositForBurnContext, DepositForBurnParams,
};
use crate::error::BridgeError;
use crate::initialize::{pool_seeds, pool_tag};
use crate::state::{LocalToken, Pool, RemoteTokenMessenger, TokenAccount, TokenMessenger};
use vstd::prelude::*;

verus! {

/// The accounts that a bridge-out is presented with. Where the coordinator
/// or the burn target's interface reads a record, the record stands beside
/// its address; where an account must sign, whether it did stands under the
/// same name with `_signed`.
#[derive(Clone, Copy, Debug, PartialEq, Eq)]
pub struct BridgeOut {
    pub payer: Address,
    pub payer_signed: bool,
    pub mint: Address,
    pub pool_key: Address,
    pub pool: Pool,
    pub vault_key: Address,
    pub vault: TokenAccount,
    pub token_messenger_minter_sender_authority: Address,
    pub message_transmitter: Address,
    pub token_messenger: Address,
    pub token_messenger_data: TokenMessenger,
    pub remote_token_messenger_key: Address,
    pub remote_token_messenger: RemoteTokenMessenger,
    pub token_minter: Address,
    pub local_token: Address,
    pub local_token_data: LocalToken,
    pub message_sent_event_data: Address,
    pub message_sent_event_data_signed: bool,
    pub message_transmitter_program: Address,
    pub token_messenger_minter_program: Address,
    pub token_program: Address,
    pub system_program: Address,
    pub event_authority: Address,
}

/// The bump with which the pool signs.
#[derive(Clone, Copy, Debug, PartialEq, Eq)]
pub struct BridgeOutBumps {
    pub pool: u8,
}

/// A burn request ready to be sent: the target, its accounts, the request
/// and the seeds with which the pool signs it.
#[derive(Clone, Debug, PartialEq, Eq)]
pub struct BurnCall {
    pub program: Address,
    pub accounts: DepositForBurnContext,
    pub params: DepositForBurnParams,
    pub signer_seeds: Vec<Vec<u8>>,
}

/// The addresses that were derived again for one bridge-out: the pool's own
/// from its stored bump, the custody address associated with it, and the
/// burn target's sender authority and limiter address.
#[derive(Clone, Copy, Debug, PartialEq, Eq)]
pub struct DerivedAccounts {
    pub pool: Option<Address>,
    pub custody: Option<Address>,
    pub sender_authority: Option<Address>,
    pub local_token: Option<Address>,
}

/// The accounts of the burn request that a bridge-out composes: the pool is
/// the owner, the custody account is burned from, the caller pays the event.
/// The owner counts as having signed, because the request goes out with the
/// pool's signer seeds; the payer and the event account have signed the
/// request if they signed the bridge-out.
pub open spec fn burn_accounts(accounts: BridgeOut) -> DepositForBurnContext {
    DepositForBurnContext {
        owner: accounts.pool_key,
        owner_signed: true,
        event_rent_payer: accounts.payer,
        event_rent_payer_signed: accounts.payer_signed,
        sender_authority_pda: accounts.token_messenger_minter_sender_authority,
        burn_token_account: accounts.vault_key,
        burn_token_account_data: accounts.vault,
        message_transmitter: accounts.message_transmitter,
        token_messenger: accounts.token_messenger,
        token_messenger_data: accounts.token_messenger_data,
        remote_token_messenger: accounts.remote_token_messenger_key,
        remote_token_messenger_data: accounts.remote_token_messenger,
        token_minter: accounts.token_minter,
        local_token: accounts.local_token,
        local_token_data: accounts.local_token_data,
        burn_token_mint: accounts.mint,
        message_sent_event_data: accounts.message_sent_event_data,
        message_sent_event_data_signed: accounts.message_sent_event_data_signed,
        message_transmitter_program: accounts.message_transmitter_program,
        token_messenger_minter_program: accounts.token_messenger_minter_program,
        token_program: accounts.token_program,
        system_program: accounts.system_program,
        event_authority: accounts.event_authority,
        program: accounts.token_messenger_minter_program,
    }
}

/// The request that a bridge-out composes: the amount is the caller's, the
/// destination and the recipient are the pool's.
pub open spec fn burn_params(accounts: BridgeOut, amount: u64) -> DepositForBurnParams {
    DepositForBurnParams {
        amount,
        destination_domain: accounts.pool.destination_domain,
        mint_recipient: accounts.pool.mint_recipient,
    }
}

/// What the coordinator decides on the records alone. The collaborator's
/// domain is compared first; then the payer and the event account must have
/// signed, the asset must be the pool's, and the custody account must hold
/// that asset under the pool's authority.
pub open spec fn bridge_out_check(accounts: BridgeOut) -> Result<(), BridgeError> {
    if accounts.remote_token_messenger.domain != accounts.pool.destination_domain {
        Err(BridgeError::InvalidDestinationDomain)
    } else if !accounts.payer_signed || !accounts.message_sent_event_data_signed {
        Err(BridgeError::AuthorityMismatch)
    } else if accounts.mint@ != accounts.pool.mint@ || accounts.vault.mint@ != accounts.mint@
        || accounts.vault.owner@ != accounts.pool_key@ {
        Err(BridgeError::AuthorityMismatch)
    } else {
        Ok(())
    }
}

/// One bridge-out as a function: the accounts after it and its result, given
/// what the burn target answered (its receipt, or its error code).
pub open spec fn bridge_out_step(pre: BridgeOut, amount: u64, answer: Result<u64, u64>) -> (
    BridgeOut,
    Result<(), BridgeError>,
) {
    match bridge_out_check(pre) {
        Err(e) => (pre, Err(e)),
        Ok(_) => match answer {
            Err(code) => (pre, Err(BridgeError::Downstream(code))),
            Ok(_) => if amount > pre.vault.amount {
                (pre, Err(BridgeError::InsufficientCustody))
            } else {
                (
                    BridgeOut {
                        vault: TokenAccount {
                            amount: (pre.vault.amount - amount) as u64,
                            ..pre.vault
                        },
                        ..pre
                    },
                    Ok(()),
                )
            },
        },
    }
}

/// Whether the three programs presented are the system program, the token
/// program and the burn target.
pub open spec fn programs_expected(accounts: BridgeOut) -> bool {
    &&& accounts.system_program@ == SYSTEM_PROGRAM_ID@
    &&& accounts.token_program@ == TOKEN_PROGRAM_ID@
    &&& accounts.token_messenger_minter_program@ == TOKEN_MESSENGER_MINTER_ID@
}

/// What the instruction decides on the presented accounts, given the
/// addresses derived again; with the signer's bump if every check passes.
/// First comes what is decided on the records alone (the collaborator's
/// domain, the signatures, the asset, the custody account), then the
/// programs, the pool address and the custody address, then what the burn
/// target's interface checks.
pub open spec fn checked_accounts(
    accounts: BridgeOut,
    amount: u64,
    pool: Option<Seq<u8>>,
    custody: Option<Seq<u8>>,
    sender_authority: Option<Seq<u8>>,
    local_token: Option<Seq<u8>>,
) -> Result<u8, BridgeError> {
    match bridge_out_check(accounts) {
        Err(e) => Err(e),
        Ok(_) => if !programs_expected(accounts) || pool != Some(accounts.pool_key@) || custody
            != Some(accounts.vault_key@) {
            Err(BridgeError::AuthorityMismatch)
        } else {
            match deposit_for_burn_check(
                burn_accounts(accounts),
                burn_params(accounts, amount),
                sender_authority,
                local_token,
            ) {
                Ok(_) => Ok(accounts.pool.bump),
                Err(e) => Err(e),
            }
        },
    }
}

/// The whole instruction as a function of the derived addresses and of the
/// burn target's answer.
pub open spec fn bridge_out_outcome(
    pre: BridgeOut,
    amount: u64,
    pool: Option<Seq<u8>>,
    custody: Option<Seq<u8>>,
    sender_authority: Option<Seq<u8>>,
    local_token: Option<Seq<u8>>,
    answer: Result<u64, u64>,
) -> (BridgeOut, Result<(), BridgeError>) {
    match checked_accounts(pre, amount, pool, custody, sender_authority, local_token) {
        Err(e) => (pre, Err(e)),
        Ok(_) => bridge_out_step(pre, amount, answer),
    }
}

/// The custody address that the chain associates with the pool for the
/// asset, if the search finds one.
pub open spec fn custody_address(accounts: BridgeOut) -> Option<Seq<u8>> {
    match found(
        associated_token_seeds(accounts.pool_key@, accounts.mint@),
        ASSOCIATED_TOKEN_PROGRAM_ID@,
    ) {
        Some((a, _)) => Some(a),
        None => None,
    }
}

impl BridgeOut {
    /// The accounts of the burn request, in the target's order.
    pub fn burn_context(&self) -> (r: DepositForBurnContext)
        ensures
            r == burn_accounts(*self),
    {
        DepositForBurnContext {
            owner: self.pool_key,
            owner_signed: true,
            event_rent_payer: self.payer,
            event_rent_payer_signed: self.payer_signed,
            sender_authority_pda: self.token_messenger_minter_sender_authority,
            burn_token_account: self.vault_key,
            burn_token_account_data: self.vault,
            message_transmitter: self.message_transmitter,
            token_messenger: self.token_messenger,
            token_messenger_data: self.token_messenger_data,
            remote_token_messenger: self.remote_token_messenger_key,
            remote_token_messenger_data: self.remote_token_messenger,
            token_minter: self.token_minter,
            local_token: self.local_token,
            local_token_data: self.local_token_data,
            burn_token_mint: self.mint,
            message_sent_event_data: self.message_sent_event_data,
            message_sent_event_data_signed: self.message_sent_event_data_signed,
            message_transmitter_program: self.message_transmitter_program,
            token_messenger_minter_program: self.token_messenger_minter_program,
            token_program: self.token_program,
            system_program: self.system_program,
            event_authority: self.event_authority,
            program: self.token_messenger_minter_program,
        }
    }

    /// Composes the burn request: the accounts in the target's order, the
    /// caller's amount with the pool's destination and recipient, and the
    /// pool's signer seeds (the pool tag, then the bump).
    pub fn compose(&self, amount: u64, bumps: &BridgeOutBumps) -> (r: BurnCall)
        ensures
            r.program == self.token_messenger_minter_program,
            r.accounts == burn_accounts(*self),
            r.params == burn_params(*self, amount),
            seed_bytes(r.signer_seeds@) == seq![pool_tag(), seq![bumps.pool]],
    {
        let accounts = self.burn_context();
        let mut signer_seeds = pool_seeds();
        let mut bump_seed: Vec<u8> = Vec::new();
        bump_seed.push(bumps.pool);
        signer_seeds.push(bump_seed);
        proof {
            assert(seed_bytes(signer_seeds@) =~= seq![pool_tag()].push(seq![bumps.pool]));
            assert(seq![pool_tag()].push(seq![bumps.pool]) =~= seq![pool_tag(), seq![bumps.pool]]);
        }
        let params = DepositForBurnParams {
            amount,
            destination_domain: self.pool.destination_domain,
            mint_recipient: self.pool.mint_recipient,
        };
        BurnCall { program: self.token_messenger_minter_program, accounts, params, signer_seeds }
    }

    /// Checks the records before anything is sent: the collaborator serves
    /// the pool's domain, the payer and the event account signed, the asset
    /// is the pool's, and the custody account holds that asset under the
    /// pool's authority.
    pub fn check(&self) -> (r: Result<(), BridgeError>)
        ensures
            r == bridge_out_check(*self),
    {
        if self.remote_token_messenger.domain != self.pool.destination_domain {
            return Err(BridgeError::InvalidDestinationDomain);
        }
        if !self.payer_signed || !self.message_sent_event_data_signed {
            return Err(BridgeError::AuthorityMismatch);
        }
        if !self.mint.same(&self.pool.mint) {
            return Err(BridgeError::AuthorityMismatch);
        }
        if !self.vault.mint.same(&self.mint) {
            return Err(BridgeError::AuthorityMismatch);
        }
        if !self.vault.owner.same(&self.pool_key) {
            return Err(BridgeError::AuthorityMismatch);
        }
        Ok(())
    }

    /// Bridges `amount` out, given the burn target's answer to the composed
    /// request. On success the custody balance has gone down by exactly
    /// `amount` and nothing else has changed; on any failure nothing has
    /// changed. The target's refusal is handed on with its code.
    pub fn bridge_out(&mut self, amount: u64, bumps: &BridgeOutBumps, answer: Result<u64, u64>) -> (r:
        Result<(), BridgeError>)
        ensures
            (*final(self), r) == bridge_out_step(*old(self), amount, answer),
    {
        match self.check() {
            Err(e) => {
                return Err(e);
            },
            Ok(_) => {},
        }
        match answer {
            Err(code) => Err(BridgeError::Downstream(code)),
            Ok(_) => {
                if amount > self.vault.amount {
                    Err(BridgeError::InsufficientCustody)
                } else {
                    self.vault.amount = self.vault.amount - amount;
                    Ok(())
                }
            },
        }
    }

    /// Whether the three programs presented are the expected ones.
    pub fn programs_are_expected(&self) -> (r: bool)
        ensures
            r == programs_expected(*self),
    {
        Address::new(SYSTEM_PROGRAM_ID).same(&self.system_program) && Address::new(
            TOKEN_PROGRAM_ID,
        ).same(&self.token_program) && Address::new(TOKEN_MESSENGER_MINTER_ID).same(
            &self.token_messenger_minter_program,
        )
    }

    /// Decides on the presented accounts, given the addresses derived again:
    /// the records must pass, and each address must be the derived one,
    /// exactly.
    pub fn check_accounts(&self, amount: u64, derived: &DerivedAccounts) -> (r: Result<
        BridgeOutBumps,
        BridgeError,
    >)
        ensures
            match checked_accounts(
                *self,
                amount,
                address_view(derived.pool),
                address_view(derived.custody),
                address_view(derived.sender_authority),
                address_view(derived.local_token),
            ) {
                Ok(bump) => r == Ok::<BridgeOutBumps, BridgeError>((BridgeOutBumps { pool: bump })),
                Err(e) => r == Err::<BridgeOutBumps, BridgeError>(e),
            },
    {
        match self.check() {
            Err(e) => {
                return Err(e);
            },
            Ok(_) => {},
        }
        if !self.programs_are_expected() {
            return Err(BridgeError::AuthorityMismatch);
        }
        if !is_derived(&self.pool_key, &derived.pool) {
            return Err(BridgeError::AuthorityMismatch);
        }
        if !is_derived(&self.vault_key, &derived.custody) {
            return Err(BridgeError::AuthorityMismatch);
        }
        let bumps = BridgeOutBumps { pool: self.pool.bump };
        let call = self.compose(amount, &bumps);
        match call.accounts.check(&call.params, &derived.sender_authority, &derived.local_token) {
            Ok(_) => Ok(bumps),
            Err(e) => Err(e),
        }
    }

    /// Derives again, under the program `program_id`, the addresses that a
    /// bridge-out compares: the pool's own from its stored bump, the custody
    /// address, and under the burn target the sender authority and the
    /// limiter address.
    pub fn derive_accounts(&self, program_id: &Address) -> (r: DerivedAccounts)
        ensures
            address_view(r.pool) == derived(seq![pool_tag()], self.pool.bump, program_id@),
            address_view(r.custody) == custody_address(*self),
            address_view(r.sender_authority) == derived(
                seq![sender_authority_tag()],
                self.token_messenger_data.authority_bump,
                self.token_messenger_minter_program@,
            ),
            address_view(r.local_token) == derived(
                seq![local_token_tag(), self.mint@],
                self.local_token_data.bump,
                self.token_messenger_minter_program@,
            ),
    {
        let seeds = pool_seeds();
        let pool = derive_address(&seeds, self.pool.bump, program_id);
        let custody = match find_associated_token_address(&self.pool_key, &self.mint) {
            Some((a, _)) => Some(a),
            None => None,
        };
        let burn = self.burn_context();
        let sender_authority = burn.derive_sender_authority(&self.token_messenger_minter_program);
        let local_token = burn.derive_local_token(&self.token_messenger_minter_program);
        DerivedAccounts { pool, custody, sender_authority, local_token }
    }
}

/// The first half of the bridge-out instruction under the program
/// `program_id`: checks the records and every presented address against its
/// derivation, and composes the burn request, signed with the pool's stored
/// bump. A request is composed if and only if the instruction would go on to
/// the burn target: whatever the target answers, the refusals of
/// `bridge_out` before the answer are the refusals here.
pub fn prepare_bridge_out(program_id: &Address, accounts: &BridgeOut, amount: u64) -> (r: Result<
    BurnCall,
    BridgeError,
>)
    ensures
        match checked_accounts(
            *accounts,
            amount,
            derived(seq![pool_tag()], accounts.pool.bump, program_id@),
            custody_address(*accounts),
            derived(
                seq![sender_authority_tag()],
                accounts.token_messenger_data.authority_bump,
                accounts.token_messenger_minter_program@,
            ),
            derived(
                seq![local_token_tag(), accounts.mint@],
                accounts.local_token_data.bump,
                accounts.token_messenger_minter_program@,
            ),
        ) {
            Ok(bump) => r is Ok && r.unwrap().program == accounts.token_messenger_minter_program
                && r.unwrap().accounts == burn_accounts(*accounts) && r.unwrap().params
                == burn_params(*accounts, amount) && seed_bytes(r.unwrap().signer_seeds@)
                == seq![pool_tag(), seq![bump]] && bump == accounts.pool.bump,
            Err(e) => r is Err && r.unwrap_err() == e,
        },
{
    let derived = accounts.derive_accounts(program_id);
    match accounts.check_accounts(amount, &derived) {
        Ok(bumps) => Ok(accounts.compose(amount, &bumps)),
        Err(e) => Err(e),
    }
}

/// The bridge-out instruction under the program `program_id`, given the
/// burn target's answer: checks every presented address against its
/// derivation, then bridges out with the pool's stored bump as the signer's.
pub fn bridge_out(
    program_id: &Address,
    accounts: &mut BridgeOut,
    amount: u64,
    answer: Result<u64, u64>,
) -> (r: Result<(), BridgeError>)
    ensures
        (*final(accounts), r) == bridge_out_outcome(
            *old(accounts),
            amount,
            derived(seq![pool_tag()], old(accounts).pool.bump, program_id@),
            custody_address(*old(accounts)),
            derived(
                seq![sender_authority_tag()],
                old(accounts).token_messenger_data.authority_bump,
                old(accounts).token_messenger_minter_program@,
            ),
            derived(
                seq![local_token_tag(), old(accounts).mint@],
                old(accounts).local_token_data.bump,
                old(accounts).token_messenger_minter_program@,
            ),
            answer,
        ),
{
    let derived = accounts.derive_accounts(program_id);
    match accounts.check_accounts(amount, &derived) {
        Ok(bumps) => accounts.bridge_out(amount, &bumps, answer),
        Err(e) => Err(e),
    }
}

/// A bridge-out either succeeds and lowers the custody balance by exactly
/// the amount, changing nothing else, or fails and changes nothing. This
/// holds of the instruction whatever the derivations gave.
pub proof fn lemma_bridge_out_atomic(
    pre: BridgeOut,
    amount: u64,
    pool: Option<Seq<u8>>,
    custody: Option<Seq<u8>>,
    sender_authority: Option<Seq<u8>>,
    local_token: Option<Seq<u8>>,
    answer: Result<u64, u64>,
)
    ensures
        ({
            let (post, r) = bridge_out_step(pre, amount, answer);
            &&& r is Ok ==> post.vault.amount == pre.vault.amount - amount
            &&& r is Ok ==> post == BridgeOut { vault: post.vault, ..pre }
            &&& r is Ok ==> post.vault == TokenAccount { amount: post.vault.amount, ..pre.vault }
            &&& r is Err ==> post == pre
        }),
        ({
            let (post, r) = bridge_out_outcome(
                pre,
                amount,
                pool,
                custody,
                sender_authority,
                local_token,
                answer,
            );
            &&& r is Ok ==> post.vault.amount == pre.vault.amount - amount
            &&& r is Ok ==> post == BridgeOut { vault: post.vault, ..pre }
            &&& r is Ok ==> post.vault == TokenAccount { amount: post.vault.amount, ..pre.vault }
            &&& r is Err ==> post == pre
        }),
{
}

/// With a collaborator that serves another domain than the pool's, a
/// bridge-out fails with `InvalidDestinationDomain` and changes nothing,
/// whatever the amount, the derivations and the burn target's answer.
pub proof fn lemma_bridge_out_wrong_domain(
    pre: BridgeOut,
    amount: u64,
    pool: Option<Seq<u8>>,
    custody: Option<Seq<u8>>,
    sender_authority: Option<Seq<u8>>,
    local_token: Option<Seq<u8>>,
    answer: Result<u64, u64>,
)
    requires
        pre.remote_token_messenger.domain != pre.pool.destination_domain,
    ensures
        bridge_out_step(pre, amount, answer) == (
            pre,
            Err::<(), BridgeError>(BridgeError::InvalidDestinationDomain),
        ),
        bridge_out_outcome(pre, amount, pool, custody, sender_authority, local_token, answer) == (
            pre,
            Err::<(), BridgeError>(BridgeError::InvalidDestinationDomain),
        ),
{
}

/// A request is composed exactly for the accounts on which the instruction
/// goes on to the burn target: the instruction then fails only on the
/// target's refusal or on a burn that the custody cannot cover. In
/// particular no request is composed for an asset that is not the pool's,
/// nor for a payer or an event account that did not sign.
pub proof fn lemma_prepared_request_is_checked(
    pre: BridgeOut,
    amount: u64,
    pool: Option<Seq<u8>>,
    custody: Option<Seq<u8>>,
    sender_authority: Option<Seq<u8>>,
    local_token: Option<Seq<u8>>,
    answer: Result<u64, u64>,
)
    requires
        checked_accounts(pre, amount, pool, custody, sender_authority, local_token) is Ok,
    ensures
        bridge_out_check(pre) is Ok,
        pre.mint@ == pre.pool.mint@,
        pre.payer_signed,
        pre.message_sent_event_data_signed,
        pool == Some(pre.pool_key@),
        custody == Some(pre.vault_key@),
        deposit_for_burn_check(
            burn_accounts(pre),
            burn_params(pre, amount),
            sender_authority,
            local_token,
        ) is Ok,
        bridge_out_outcome(
            pre,
            amount,
            pool,
            custody,
            sender_authority,
            local_token,
            answer,
        ).1 == match answer {
            Err(code) => Err::<(), BridgeError>(BridgeError::Downstream(code)),
            Ok(_) => if amount > pre.vault.amount {
                Err::<(), BridgeError>(BridgeError::InsufficientCustody)
            } else {
                Ok::<(), BridgeError>(())
            },
        },
{
}

/// The custody rule: the custody account holds the pool's asset, and the
/// authority that may spend from it is the pool's address, exactly.
pub open spec fn custody_held_by_pool(pool_key: Address, pool: Pool, vault: TokenAccount) -> bool {
    vault.owner@ == pool_key@ && vault.mint@ == pool.mint@
}

/// A bridge-out succeeds only on a custody account that the custody rule
/// holds of, and the rule holds of the accounts after any bridge-out of
/// which it held before.
pub proof fn lemma_bridge_out_keeps_custody(pre: BridgeOut, amount: u64, answer: Result<u64, u64>)
    ensures
        bridge_out_step(pre, amount, answer).1 is Ok ==> custody_held_by_pool(
            pre.pool_key,
            pre.pool,
            pre.vault,
        ),
        custody_held_by_pool(pre.pool_key, pre.pool, pre.vault) ==> custody_held_by_pool(
            bridge_out_step(pre, amount, answer).0.pool_key,
            bridge_out_step(pre, amount, answer).0.pool,
            bridge_out_step(pre, amount, answer).0.vault,
        ),
{
}

/// The request that is sent never takes its destination from the caller:
/// two bridge-outs on the same pool compose the same destination domain and
/// recipient, whatever their amounts.
pub proof fn lemma_destination_is_the_pools(accounts: BridgeOut, first: u64, second: u64)
    ensures
        burn_params(accounts, first).amount == first,
        burn_params(accounts, first).destination_domain == accounts.pool.destination_domain,
        burn_params(accounts, first).mint_recipient == accounts.pool.mint_recipient,
        burn_params(accounts, first).destination_domain == burn_params(
            accounts,
            second,
        ).destination_domain,
        burn_params(accounts, first).mint_recipient == burn_params(accounts, second).mint_recipient,
{
}

/// One request of a run of bridge-outs: the amount and the target's answer.
#[derive(Clone, Copy, Debug, PartialEq, Eq)]
pub struct Request {
    pub amount: u64,
    pub answer: Result<u64, u64>,
}

/// The accounts after a run of bridge-outs, one after the other.
pub open spec fn run(pre: BridgeOut, requests: Seq<Request>) -> BridgeOut
    decreases requests.len(),
{
    if requests.len() == 0 {
        pre
    } else {
        let before = run(pre, requests.drop_last());
        bridge_out_step(before, requests.last().amount, requests.last().answer).0
    }
}

/// The sum of the amounts that a run of bridge-outs burned.
pub open spec fn burned(pre: BridgeOut, requests: Seq<Request>) -> int
    decreases requests.len(),
{
    if requests.len() == 0 {
        0
    } else {
        let before = run(pre, requests.drop_last());
        let last = requests.last();
        burned(pre, requests.drop_last()) + if bridge_out_step(
            before,
            last.amount,
            last.answer,
        ).1 is Ok {
            last.amount as int
        } else {
            0
        }
    }
}

/// Over any run of bridge-outs on one pool, taken one after the other, the
/// custody balance is the first balance less what was burned: it never goes
/// below zero, no run burns more than the custody held, and the pool's
/// record stays as it was.
pub proof fn lemma_custody_never_negative(pre: BridgeOut, requests: Seq<Request>)
    ensures
        run(pre, requests).vault.amount == pre.vault.amount - burned(pre, requests),
        0 <= burned(pre, requests) <= pre.vault.amount,
        run(pre, requests).pool == pre.pool,
    decreases requests.len(),
{
    if requests.len() > 0 {
        lemma_custody_never_negative(pre, requests.drop_last());
    }
}

} // verus!
