//! A commit-reveal coin-flip wager: a player funds a wager record, commits an
//! amount and a guess against a pending randomness request, and settles once
//! the oracle has revealed the value. Funds move between the player's wallet,
//! the record's wager balance and a shared escrow vault.
pub mod state;
pub mod randomness;
pub mod engine;
pub mod laws;
