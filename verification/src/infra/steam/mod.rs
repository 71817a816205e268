pub mod auth;
pub mod inventory;
pub mod schema;
pub mod trade_offers;
pub mod trade_send;
