//! The decisions that the HTTP handlers make, apart from the database and
//! Stripe calls around them.

pub mod coach;
pub mod player;
pub mod audios;
pub mod avatars;
pub mod recordings;
pub mod session;
pub mod sessions;
pub mod passwords;
pub mod users;
pub mod comments;
pub mod explore;
pub mod games;
pub mod coaches;
pub mod reviews;
pub mod claims;
