//! Ranklab's coaching-marketplace backend logic: Stripe object ids and
//! order parameters, webhook signature checking, the review life cycle,
//! request validation and the small computations its HTTP handlers make.

pub mod text;
pub mod decimal;
pub mod hexcodec;
pub mod digest;
pub mod data_types;
pub mod routes;
pub mod validation;
pub mod stripe;
pub mod schema;
pub mod config;
pub mod uuids;
pub mod secrets;
pub mod notifications;
pub mod slug;
pub mod lookup;
pub mod html;
pub mod storage;
