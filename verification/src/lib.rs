//! An on-ledger state machine that records and authorizes the minting of
//! unique collectible tokens on behalf of a controlling authority.
//!
//! The library keeps a global configuration record (the administrator and a
//! designated vault), one mint record per `(recipient, client_nonce)` pair,
//! and an append-only event log. Only the administrator recorded in the
//! configuration may create or confirm mint records, and confirmation checks
//! the vault's token account before recording the minted asset.

pub mod addresses;
pub mod errors;
pub mod events;
pub mod keys;
pub mod laws;
pub mod ledger;
pub mod state;
