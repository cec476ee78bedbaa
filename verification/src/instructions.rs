//! The three operations on an offer, each with the accounts it works on.

pub mod complete_escrow;
pub mod initialize_escrow;
pub mod refund_offer;
