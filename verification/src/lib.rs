//! Authorization boundary of a cross-chain bridge: derived authorities, the
//! bridge pool, the bridge-out coordinator and the acceptance gate for relayed
//! messages, all over plain values.

pub mod address;
pub mod error;
pub mod state;
pub mod initialize;
pub mod deposit_for_burn;
pub mod bridge_out;
pub mod receive;
pub mod wire;
pub mod dispatch;
