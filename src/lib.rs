//! Request handling for a small token service on a Solana-style ledger:
//! key and signature text, instruction lists for token operations, and the
//! validation that every handler performs before it reaches the ledger.

pub mod base58;
pub mod keys;
pub mod signing;
pub mod instructions;
pub mod handlers;
pub mod transaction;
