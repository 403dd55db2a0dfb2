pub mod auth_handler;
pub mod client;
pub mod observer;
