//! Administrative and lifecycle core of a custodial vault.
//!
//! The vault gates movement of value behind three coupled pieces: an
//! owner-transfer protocol with time-bound proposals, an open/pause state
//! machine, and a deferred-provisioning coordinator that must commit a
//! share-token identifier before any share can be minted or burned. All
//! state lives in an explicitly passed [`structs::Vault`] store; every
//! operation is a transition function on that store whose behaviour is
//! stated in its contract.

pub mod errors;
pub mod msg;
pub mod structs;
pub mod state;
pub mod helpers;
pub mod text;
pub mod ownership;
pub mod handlers;
pub mod reply;
pub mod query;
pub mod contract;
pub mod effects;
pub mod laws;
