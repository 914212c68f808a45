//! Order lifecycle, order store and live-status notification for a
//! subscription payment backend, with the pricing, payload and request
//! helpers around them.

pub mod auth;
pub mod clock;
pub mod config;
pub mod hub;
pub mod ideas;
pub mod laws;
pub mod models;
pub mod order;
pub mod order_service;
pub mod paging;
pub mod password;
pub mod payload;
pub mod pricing;
pub mod service;
pub mod store;
pub mod terms;
pub mod text;
pub mod user;
