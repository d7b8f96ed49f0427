//! The operations of the oracle, one module each.

pub mod divine_fortune;
pub mod initialize;
pub mod upload_cards;
