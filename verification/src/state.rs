//! The persisted records: the pool, its custody account and the records of
//! the collaborating programs that the bridge reads.

use crate::address::Address;
use vstd::prelude::*;

verus! {

/// Configuration of the one bridgeable asset: fixed at creation.
#[derive(Clone, Copy, Debug, PartialEq, Eq)]
pub struct Pool {
    /// The bridgeable asset.
    pub mint: Address,
    /// The remote chain that burns are announced to.
    pub destination_domain: u32,
    /// The account on the remote chain that receives the minted amount.
    pub mint_recipient: Address,
    /// The bump of the pool's own derived address.
    pub bump: u8,
}

/// A token account: here the custody account of the pool.
#[derive(Clone, Copy, Debug, PartialEq, Eq)]
pub struct TokenAccount {
    pub mint: Address,
    /// The authority that may spend from the account.
    pub owner: Address,
    pub amount: u64,
}

/// Main state of the message transmitter program.
#[derive(Clone, Debug, PartialEq, Eq)]
pub struct MessageTransmitter {
    pub owner: Address,
    pub pending_owner: Address,
    pub attester_manager: Address,
    pub pauser: Address,
    pub paused: bool,
    pub local_domain: u32,
    pub version: u32,
    pub signature_threshold: u32,
    pub enabled_attesters: Vec<Address>,
    pub max_message_body_size: u64,
    pub next_available_nonce: u64,
}

/// Main state of the token messenger.
#[derive(Clone, Copy, Debug, PartialEq, Eq)]
pub struct TokenMessenger {
    pub owner: Address,
    pub pending_owner: Address,
    pub local_message_transmitter: Address,
    pub message_body_version: u32,
    pub authority_bump: u8,
}

/// The token messenger of one remote domain.
#[derive(Clone, Copy, Debug, PartialEq, Eq)]
pub struct RemoteTokenMessenger {
    pub domain: u32,
    pub token_messenger: Address,
}

/// Main state of the token minter.
#[derive(Clone, Copy, Debug, PartialEq, Eq)]
pub struct TokenMinter {
    pub token_controller: Address,
    pub pauser: Address,
    pub paused: bool,
    pub bump: u8,
}

/// Per-asset limiter: the burn ceiling and the running totals. Owned by the
/// downstream burn target; the bridge reads it and never writes it.
#[derive(Clone, Copy, Debug, PartialEq, Eq)]
pub struct LocalToken {
    pub custody: Address,
    pub mint: Address,
    pub burn_limit_per_message: u64,
    pub messages_sent: u64,
    pub messages_received: u64,
    pub amount_sent: u128,
    pub amount_received: u128,
    pub bump: u8,
    pub custody_bump: u8,
}

} // verus!
