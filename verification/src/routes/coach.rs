//! Handlers under `/coach`.

pub mod account;
pub mod comments;
pub mod reviews;
pub mod account_links;
pub mod stripe_account_links;
pub mod stripe_login_links;
pub mod audios;
pub mod avatars;
