//! Stripe Tax: calculations and the transactions recorded from them.

pub mod calculations;
pub mod transactions;
