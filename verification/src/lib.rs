//! Verified state rules of two Solana programs: the `update` instruction of a
//! token escrow, and the `lock` / `unlock` instructions of a constant-product
//! pool's configuration, together with the account checks that guard them.

pub mod pubkey;
pub mod runtime;
pub mod framework;
pub mod amm;
pub mod escrow;
