pub mod client;
pub mod models;
pub mod websocket;
