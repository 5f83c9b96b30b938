//! Verified decision logic of the StellarForge contract suite: vesting,
//! a vesting factory, token streams, a price oracle, a multisig treasury
//! and a token-weighted governor.
//!
//! Each contract is modelled as a pure state machine over the values that
//! the contract keeps in ledger storage. An operation takes those values and
//! the ledger time, and returns which addresses must authorize it, the new
//! values, and the token transfers to perform. Reading and writing storage,
//! checking signatures and moving tokens are left to the host.

pub mod address;
pub mod distinct;
pub mod gate;
pub mod transfer;
pub mod schedule;
pub mod vesting;
pub mod factory;
pub mod stream;
pub mod oracle;
pub mod multisig;
pub mod governor;
