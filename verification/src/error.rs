//! The failures that the bridge reports.

use vstd::prelude::*;

verus! {

/// Why an operation was refused. Every failure leaves the state untouched.
#[derive(Clone, Copy, Debug, PartialEq, Eq, Structural)]
pub enum BridgeError {
    /// A pool record already exists for this deployment.
    AlreadyInitialized,
    /// A presented account is not the one that the derivation or the
    /// ownership rule designates, or an account that must sign did not.
    AuthorityMismatch,
    /// The presented remote token messenger serves another domain than the
    /// one the pool is configured for.
    InvalidDestinationDomain,
    /// The caller is not the relay authority of the message transmitter.
    UnauthorizedCaller,
    /// The downstream burn target refused; its error code is handed on
    /// unchanged, in the full 64 bits in which the host reports one.
    Downstream(u64),
    /// The downstream burn target reported a burn that the custody balance
    /// cannot cover.
    InsufficientCustody,
}

impl BridgeError {
    /// A short description of the failure.
    pub fn describe(&self) -> (r: &'static str)
        ensures
            r@ == self.description(),
    {
        match self {
            BridgeError::AlreadyInitialized => "pool is already initialized",
            BridgeError::AuthorityMismatch => "account does not match its derived authority",
            BridgeError::InvalidDestinationDomain => "invalid destination domain",
            BridgeError::UnauthorizedCaller => "caller is not the relay authority",
            BridgeError::Downstream(_) => "downstream burn target refused the request",
            BridgeError::InsufficientCustody => "custody balance does not cover the burn",
        }
    }

    /// The text that `describe` returns.
    pub open spec fn description(&self) -> Seq<char> {
        match self {
            BridgeError::AlreadyInitialized => "pool is already initialized"@,
            BridgeError::AuthorityMismatch => "account does not match its derived authority"@,
            BridgeError::InvalidDestinationDomain => "invalid destination domain"@,
            BridgeError::UnauthorizedCaller => "caller is not the relay authority"@,
            BridgeError::Downstream(_) => "downstream burn target refused the request"@,
            BridgeError::InsufficientCustody => "custody balance does not cover the burn"@,
        }
    }
}

} // verus!
