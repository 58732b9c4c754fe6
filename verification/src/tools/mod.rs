pub mod assertion;
pub mod auth;
pub mod http;
pub mod coap;
pub mod mqtt;
pub mod warmup;
pub mod command;
pub mod messages;
pub mod tls;
pub mod websocket;
