//! A permissioned bounty-escrow ledger: networks, funded bounties, moderation,
//! work submissions and the release of escrowed rewards to one winner.

pub mod address;
pub mod derivation;
pub mod state;
pub mod authorization;
pub mod instructions;
pub mod laws;
