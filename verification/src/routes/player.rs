//! Handlers under `/player`.

pub mod account;
pub mod comments;
pub mod recordings;
pub mod reviews;
pub mod review_intents;
pub mod stripe_payment_intents;
pub mod checkouts;
pub mod stripe_tax_calculations;
pub mod stripe_billing_details;
pub mod stripe_billing_portal_sessions;
pub mod stripe_checkout_sessions;
pub mod stripe_payment_methods;
