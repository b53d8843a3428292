//! Creation of the pool record and of its custody account.

use crate::address::{
    associated_token_seeds, derived, find, find_associated_token_address, found, search_view,
    Address,
    ASSOCIATED_TOKEN_PROGRAM_ID, SYSTEM_PROGRAM_ID, TOKEN_PROGRAM_ID,
};
use crate::error::BridgeError;
use crate::state::{Pool, TokenAccount};
use vstd::prelude::*;

verus! {

/// The seed tag of the pool's derived address: the bytes of `pool`.
pub open spec fn pool_tag() -> Seq<u8> {
    seq![112u8, 111u8, 111u8, 108u8]
}

/// The seeds of the pool's derived address, without the bump.
pub fn pool_seeds() -> (r: Vec<Vec<u8>>)
    ensures
        crate::address::seed_bytes(r@) == seq![pool_tag()],
{
    let mut tag: Vec<u8> = Vec::new();
    tag.push(112u8);
    tag.push(111u8);
    tag.push(111u8);
    tag.push(108u8);
    let mut seeds: Vec<Vec<u8>> = Vec::new();
    seeds.push(tag);
    proof {
        assert(seeds@[0]@ =~= pool_tag());
        assert(crate::address::seed_bytes(seeds@) =~= seq![pool_tag()]);
    }
    seeds
}

/// The accounts that an initialization is presented with. `pool` and `vault`
/// hold the records found at `pool_key` and `vault_key`, if any exist;
/// `payer_signed` says whether the payer signed.
#[derive(Clone, Copy, Debug, PartialEq, Eq)]
pub struct Initialize {
    pub payer: Address,
    pub payer_signed: bool,
    pub mint: Address,
    pub pool_key: Address,
    pub pool: Option<Pool>,
    pub vault_key: Address,
    pub vault: Option<TokenAccount>,
    pub system_program: Address,
    pub token_program: Address,
    pub associated_token_program: Address,
}

/// The destination that a pool is bound to at creation.
#[derive(Clone, Copy, Debug, PartialEq, Eq)]
pub struct InitializeParams {
    pub destination_domain: u32,
    pub mint_recipient: Address,
}

/// The bumps found while the accounts of an initialization were checked.
#[derive(Clone, Copy, Debug, PartialEq, Eq)]
pub struct InitializeBumps {
    pub pool: u8,
}

/// The accounts after a successful initialization from `pre`.
pub open spec fn initialized(pre: Initialize, params: InitializeParams, bump: u8) -> Initialize {
    Initialize {
        pool: Some(
            Pool {
                mint: pre.mint,
                destination_domain: params.destination_domain,
                mint_recipient: params.mint_recipient,
                bump,
            },
        ),
        vault: Some(TokenAccount { mint: pre.mint, owner: pre.pool_key, amount: 0 }),
        ..pre
    }
}

/// One initialization as a function: the accounts after it and its result.
pub open spec fn initialize_step(pre: Initialize, params: InitializeParams, bump: u8) -> (
    Initialize,
    Result<(), BridgeError>,
) {
    if pre.pool is Some || pre.vault is Some {
        (pre, Err(BridgeError::AlreadyInitialized))
    } else {
        (initialized(pre, params, bump), Ok(()))
    }
}

/// Whether the three programs presented are the system program, the token
/// program and the associated token program.
pub open spec fn programs_expected(accounts: Initialize) -> bool {
    &&& accounts.system_program@ == SYSTEM_PROGRAM_ID@
    &&& accounts.token_program@ == TOKEN_PROGRAM_ID@
    &&& accounts.associated_token_program@ == ASSOCIATED_TOKEN_PROGRAM_ID@
}

/// Whether the payer signed, the presented programs are the expected ones
/// and the presented pool and custody addresses are the derived ones, given
/// what the two searches returned; with the pool's bump if so.
pub open spec fn checked_addresses(
    accounts: Initialize,
    pool: Option<(Seq<u8>, u8)>,
    custody: Option<(Seq<u8>, u8)>,
) -> Result<u8, BridgeError> {
    match (pool, custody) {
        (Some((p, bump)), Some((c, _))) => if accounts.payer_signed && programs_expected(accounts)
            && p == accounts.pool_key@ && c == accounts.vault_key@ {
            Ok(bump)
        } else {
            Err(BridgeError::AuthorityMismatch)
        },
        _ => Err(BridgeError::AuthorityMismatch),
    }
}

/// The whole instruction as a function of the two searches' results.
pub open spec fn initialize_outcome(
    pre: Initialize,
    params: InitializeParams,
    pool: Option<(Seq<u8>, u8)>,
    custody: Option<(Seq<u8>, u8)>,
) -> (Initialize, Result<(), BridgeError>) {
    if pre.pool is Some || pre.vault is Some {
        (pre, Err(BridgeError::AlreadyInitialized))
    } else {
        match checked_addresses(pre, pool, custody) {
            Ok(bump) => (initialized(pre, params, bump), Ok(())),
            Err(e) => (pre, Err(e)),
        }
    }
}

impl Initialize {
    /// Whether the three programs presented are the expected ones.
    pub fn programs_are_expected(&self) -> (r: bool)
        ensures
            r == programs_expected(*self),
    {
        Address::new(SYSTEM_PROGRAM_ID).same(&self.system_program) && Address::new(
            TOKEN_PROGRAM_ID,
        ).same(&self.token_program) && Address::new(ASSOCIATED_TOKEN_PROGRAM_ID).same(
            &self.associated_token_program,
        )
    }

    /// Looks at the payer's signature, compares the presented programs with
    /// the expected ones, and the presented pool and custody addresses with
    /// the results of the two searches, exactly: a payer that did not sign,
    /// any difference, and any search that found nothing, is an
    /// `AuthorityMismatch`.
    pub fn check_addresses(
        &self,
        pool: Option<(Address, u8)>,
        custody: Option<(Address, u8)>,
    ) -> (r: Result<InitializeBumps, BridgeError>)
        ensures
            match checked_addresses(*self, search_view(pool), search_view(custody)) {
                Ok(bump) => r == Ok::<InitializeBumps, BridgeError>(
                    (InitializeBumps { pool: bump }),
                ),
                Err(e) => r == Err::<InitializeBumps, BridgeError>(e),
            },
    {
        match (pool, custody) {
            (Some((p, bump)), Some((c, _))) => {
                if self.payer_signed && self.programs_are_expected() && p.same(&self.pool_key)
                    && c.same(&self.vault_key) {
                    Ok(InitializeBumps { pool: bump })
                } else {
                    Err(BridgeError::AuthorityMismatch)
                }
            },
            _ => Err(BridgeError::AuthorityMismatch),
        }
    }

    /// Persists the pool record for the presented asset with the given
    /// destination, and creates the empty custody account under the pool's
    /// authority. Fails with `AlreadyInitialized`, changing nothing, where a
    /// pool or a custody account exists.
    pub fn initialize(&mut self, params: &InitializeParams, bumps: &InitializeBumps) -> (r: Result<
        (),
        BridgeError,
    >)
        ensures
            (*final(self), r) == initialize_step(*old(self), *params, bumps.pool),
    {
        if self.pool.is_some() || self.vault.is_some() {
            return Err(BridgeError::AlreadyInitialized);
        }
        self.pool = Some(
            Pool {
                mint: self.mint,
                destination_domain: params.destination_domain,
                mint_recipient: params.mint_recipient,
                bump: bumps.pool,
            },
        );
        self.vault = Some(TokenAccount { mint: self.mint, owner: self.pool_key, amount: 0 });
        Ok(())
    }

    /// The pool record as stored, if one exists.
    pub fn read_pool(&self) -> (r: Option<Pool>)
        ensures
            r == self.pool,
    {
        self.pool
    }
}

/// The initialization instruction under the program `program_id`: refuses a
/// second initialization, checks that the payer signed, that the programs
/// are the expected ones, that the presented pool address is the one
/// derived from the pool tag and that the custody address is the token
/// address associated with the pool for the asset, then creates both records.
/// The bump that is stored derives the pool address again.
pub fn initialize(program_id: &Address, accounts: &mut Initialize, params: InitializeParams) -> (r:
    Result<(), BridgeError>)
    ensures
        (*final(accounts), r) == initialize_outcome(
            *old(accounts),
            params,
            found(seq![pool_tag()], program_id@),
            found(
                associated_token_seeds(old(accounts).pool_key@, old(accounts).mint@),
                ASSOCIATED_TOKEN_PROGRAM_ID@,
            ),
        ),
        r is Ok ==> derived(
            seq![pool_tag()],
            final(accounts).pool.unwrap().bump,
            program_id@,
        ) == Some(old(accounts).pool_key@),
{
    if accounts.pool.is_some() || accounts.vault.is_some() {
        return Err(BridgeError::AlreadyInitialized);
    }
    let seeds = pool_seeds();
    let pool = find(&seeds, program_id);
    let custody = find_associated_token_address(&accounts.pool_key, &accounts.mint);
    match accounts.check_addresses(pool, custody) {
        Ok(bumps) => accounts.initialize(&params, &bumps),
        Err(e) => Err(e),
    }
}

/// Reading the pool right after a successful initialization gives back the
/// asset, the destination domain and the recipient unchanged, with the bump
/// that the search found. An initialization of a deployment that has neither
/// record succeeds once the presented addresses are the derived ones.
pub proof fn lemma_initialize_round_trip(
    pre: Initialize,
    params: InitializeParams,
    pool: Option<(Seq<u8>, u8)>,
    custody: Option<(Seq<u8>, u8)>,
)
    requires
        pre.pool is None,
        pre.vault is None,
    ensures
        ({
            let (post, r) = initialize_outcome(pre, params, pool, custody);
            &&& r is Ok <==> checked_addresses(pre, pool, custody) is Ok
            &&& r is Ok ==> post.pool == Some(
                Pool {
                    mint: pre.mint,
                    destination_domain: params.destination_domain,
                    mint_recipient: params.mint_recipient,
                    bump: pool.unwrap().1,
                },
            )
            &&& r is Ok ==> post == initialize_step(pre, params, pool.unwrap().1).0
            &&& r is Err ==> post == pre
        }),
{
}

/// After a successful initialization the custody account is empty, holds the
/// pool's asset, and is under the authority of the pool's address.
pub proof fn lemma_initialize_creates_custody(
    pre: Initialize,
    params: InitializeParams,
    pool: Option<(Seq<u8>, u8)>,
    custody: Option<(Seq<u8>, u8)>,
)
    requires
        initialize_outcome(pre, params, pool, custody).1 is Ok,
    ensures
        ({
            let post = initialize_outcome(pre, params, pool, custody).0;
            &&& post.vault is Some
            &&& post.pool is Some
            &&& post.vault.unwrap().amount == 0
            &&& post.vault.unwrap().owner == post.pool_key
            &&& post.vault.unwrap().mint == post.pool.unwrap().mint
            &&& post.pool_key@ == pool.unwrap().0
            &&& post.vault_key@ == custody.unwrap().0
        }),
{
}

/// A second initialization fails with `AlreadyInitialized`, whatever it asks
/// for and whatever addresses it presents, and the pool keeps the values of
/// the first.
pub proof fn lemma_initialize_twice(
    pre: Initialize,
    first: InitializeParams,
    second: InitializeParams,
    pool: Option<(Seq<u8>, u8)>,
    custody: Option<(Seq<u8>, u8)>,
    second_pool: Option<(Seq<u8>, u8)>,
    second_custody: Option<(Seq<u8>, u8)>,
    second_bump: u8,
)
    requires
        initialize_outcome(pre, first, pool, custody).1 is Ok,
    ensures
        ({
            let once = initialize_outcome(pre, first, pool, custody).0;
            let twice = initialize_outcome(once, second, second_pool, second_custody);
            &&& twice.1 == Err::<(), BridgeError>(BridgeError::AlreadyInitialized)
            &&& twice.0 == once
            &&& initialize_step(once, second, second_bump) == twice
            &&& twice.0.pool == Some(
                Pool {
                    mint: pre.mint,
                    destination_domain: first.destination_domain,
                    mint_recipient: first.mint_recipient,
                    bump: pool.unwrap().1,
                },
            )
        }),
{
}

} // verus!
