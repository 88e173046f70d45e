//! `/claims`: coach and player profiles made for accounts of the identity
//! provider.

pub mod coaches;
pub mod players;
