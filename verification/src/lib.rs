//! Core transaction model for a ledger: value transfers between accounts and
//! protocol-issued rewards, with a canonical byte encoding, an Ed25519
//! signing routine, and a validation routine that checks stored signatures.

use vstd::prelude::*;

pub mod canon;
pub mod crypto;
pub mod hexcode;
pub mod ident;
pub mod model;

pub use model::Reward;
pub use model::Transaction;
pub use model::Transfer;
pub use model::TxError;
pub use model::WireTransfer;
pub use model::sender_address;

verus! {

/// Fixed amount of every protocol-issued reward.
pub const MINER_REWARD: u64 = 1;

} // verus!
