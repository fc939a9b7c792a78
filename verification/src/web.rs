//! The handlers' decisions, one module per resource.

pub mod auth;
pub mod category;
pub mod mw;
pub mod post;
pub mod product;
