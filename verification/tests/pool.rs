use circle_integration::address::{
    find, find_associated_token_address, Address, ASSOCIATED_TOKEN_PROGRAM_ID,
    CIRCLE_INTEGRATION_ID, SYSTEM_PROGRAM_ID, TOKEN_PROGRAM_ID,
};
use circle_integration::error::BridgeError;
use circle_integration::initialize::{
    initialize, pool_seeds, Initialize, InitializeBumps, InitializeParams,
};
use circle_integration::state::{Pool, TokenAccount};

fn fresh() -> Initialize {
    let program = Address::new(CIRCLE_INTEGRATION_ID);
    let mint = Address::new([9u8; 32]);
    let (pool_key, _) = find(&pool_seeds(), &program).unwrap();
    let (vault_key, _) = find_associated_token_address(&pool_key, &mint).unwrap();
    Initialize {
        payer: Address::new([1u8; 32]),
        payer_signed: true,
        mint,
        pool_key,
        pool: None,
        vault_key,
        vault: None,
        system_program: Address::new(SYSTEM_PROGRAM_ID),
        token_program: Address::new(TOKEN_PROGRAM_ID),
        associated_token_program: Address::new(ASSOCIATED_TOKEN_PROGRAM_ID),
    }
}

#[test]
fn initialize_then_read_gives_the_values_back() {
    let program = Address::new(CIRCLE_INTEGRATION_ID);
    let mut accounts = fresh();
    let params =
        InitializeParams { destination_domain: 7, mint_recipient: Address::new([42u8; 32]) };
    assert_eq!(initialize(&program, &mut accounts, params), Ok(()));
    let (_, bump) = find(&pool_seeds(), &program).unwrap();
    assert_eq!(
        accounts.read_pool(),
        Some(Pool {
            mint: Address::new([9u8; 32]),
            destination_domain: 7,
            mint_recipient: Address::new([42u8; 32]),
            bump,
        })
    );
    assert_eq!(
        accounts.vault,
        Some(TokenAccount { mint: Address::new([9u8; 32]), owner: accounts.pool_key, amount: 0 })
    );
}

#[test]
fn initialize_keeps_extreme_values() {
    let program = Address::new(CIRCLE_INTEGRATION_ID);
    let mut accounts = fresh();
    let params = InitializeParams {
        destination_domain: u32::MAX,
        mint_recipient: Address::new([255u8; 32]),
    };
    assert_eq!(initialize(&program, &mut accounts, params), Ok(()));
    let pool = accounts.read_pool().unwrap();
    assert_eq!(pool.destination_domain, u32::MAX);
    assert_eq!(pool.mint_recipient, Address::new([255u8; 32]));
}

#[test]
fn second_initialize_fails_and_keeps_the_first_values() {
    let program = Address::new(CIRCLE_INTEGRATION_ID);
    let mut accounts = fresh();
    let first =
        InitializeParams { destination_domain: 7, mint_recipient: Address::new([42u8; 32]) };
    let second =
        InitializeParams { destination_domain: 8, mint_recipient: Address::new([43u8; 32]) };
    assert_eq!(initialize(&program, &mut accounts, first), Ok(()));
    let after_first = accounts;
    assert_eq!(initialize(&program, &mut accounts, second), Err(BridgeError::AlreadyInitialized));
    assert_eq!(accounts, after_first);
    let pool = accounts.read_pool().unwrap();
    assert_eq!(pool.destination_domain, 7);
    assert_eq!(pool.mint_recipient, Address::new([42u8; 32]));
}

#[test]
fn initialize_refuses_a_pool_address_that_is_not_derived() {
    let program = Address::new(CIRCLE_INTEGRATION_ID);
    let mut accounts = fresh();
    accounts.pool_key = Address::new([2u8; 32]);
    let before = accounts;
    let params =
        InitializeParams { destination_domain: 7, mint_recipient: Address::new([42u8; 32]) };
    assert_eq!(initialize(&program, &mut accounts, params), Err(BridgeError::AuthorityMismatch));
    assert_eq!(accounts, before);
}

#[test]
fn initialize_refuses_a_custody_address_that_is_not_associated() {
    let program = Address::new(CIRCLE_INTEGRATION_ID);
    let mut accounts = fresh();
    accounts.vault_key = Address::new([2u8; 32]);
    let before = accounts;
    let params =
        InitializeParams { destination_domain: 7, mint_recipient: Address::new([42u8; 32]) };
    assert_eq!(initialize(&program, &mut accounts, params), Err(BridgeError::AuthorityMismatch));
    assert_eq!(accounts, before);
}

#[test]
fn initialize_under_another_program_is_refused() {
    let other = Address::new([77u8; 32]);
    let mut accounts = fresh();
    let params =
        InitializeParams { destination_domain: 7, mint_recipient: Address::new([42u8; 32]) };
    assert_eq!(initialize(&other, &mut accounts, params), Err(BridgeError::AuthorityMismatch));
    assert_eq!(accounts.read_pool(), None);
}

#[test]
fn initialize_refuses_unexpected_programs() {
    let program = Address::new(CIRCLE_INTEGRATION_ID);
    let params =
        InitializeParams { destination_domain: 7, mint_recipient: Address::new([42u8; 32]) };
    let mut accounts = fresh();
    accounts.system_program = Address::new([1u8; 32]);
    assert_eq!(initialize(&program, &mut accounts, params), Err(BridgeError::AuthorityMismatch));
    let mut accounts = fresh();
    accounts.token_program = Address::new([1u8; 32]);
    assert_eq!(initialize(&program, &mut accounts, params), Err(BridgeError::AuthorityMismatch));
    let mut accounts = fresh();
    accounts.associated_token_program = Address::new([1u8; 32]);
    assert_eq!(initialize(&program, &mut accounts, params), Err(BridgeError::AuthorityMismatch));
    assert_eq!(accounts.read_pool(), None);
}

#[test]
fn initialize_refuses_a_payer_that_did_not_sign() {
    let program = Address::new(CIRCLE_INTEGRATION_ID);
    let params =
        InitializeParams { destination_domain: 7, mint_recipient: Address::new([42u8; 32]) };
    let mut accounts = fresh();
    accounts.payer_signed = false;
    let before = accounts;
    assert_eq!(initialize(&program, &mut accounts, params), Err(BridgeError::AuthorityMismatch));
    assert_eq!(accounts, before);
    assert_eq!(
        accounts.check_addresses(Some((accounts.pool_key, 250)), Some((accounts.vault_key, 3))),
        Err(BridgeError::AuthorityMismatch)
    );
}

#[test]
fn check_addresses_compares_both() {
    let accounts = fresh();
    let pool = Some((accounts.pool_key, 250u8));
    let custody = Some((accounts.vault_key, 3u8));
    assert_eq!(accounts.check_addresses(pool, custody), Ok(InitializeBumps { pool: 250 }));
    assert_eq!(accounts.check_addresses(None, custody), Err(BridgeError::AuthorityMismatch));
    assert_eq!(accounts.check_addresses(pool, None), Err(BridgeError::AuthorityMismatch));
    assert_eq!(
        accounts.check_addresses(Some((accounts.vault_key, 250)), custody),
        Err(BridgeError::AuthorityMismatch)
    );
    assert_eq!(
        accounts.check_addresses(pool, Some((accounts.pool_key, 3))),
        Err(BridgeError::AuthorityMismatch)
    );
}

#[test]
fn method_initialize_stores_the_given_bump() {
    let mut accounts = fresh();
    let params =
        InitializeParams { destination_domain: 5, mint_recipient: Address::new([6u8; 32]) };
    assert_eq!(accounts.initialize(&params, &InitializeBumps { pool: 254 }), Ok(()));
    assert_eq!(accounts.read_pool().unwrap().bump, 254);
    assert_eq!(
        accounts.initialize(&params, &InitializeBumps { pool: 1 }),
        Err(BridgeError::AlreadyInitialized)
    );
    assert_eq!(accounts.read_pool().unwrap().bump, 254);
}

#[test]
fn errors_describe_themselves() {
    assert_eq!(BridgeError::AlreadyInitialized.describe(), "pool is already initialized");
    assert_eq!(
        BridgeError::AuthorityMismatch.describe(),
        "account does not match its derived authority"
    );
    assert_eq!(BridgeError::InvalidDestinationDomain.describe(), "invalid destination domain");
    assert_eq!(BridgeError::UnauthorizedCaller.describe(), "caller is not the relay authority");
    assert_eq!(
        BridgeError::Downstream(6).describe(),
        "downstream burn target refused the request"
    );
    assert_eq!(
        BridgeError::InsufficientCustody.describe(),
        "custody balance does not cover the burn"
    );
}
