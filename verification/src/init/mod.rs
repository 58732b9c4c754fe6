pub mod access_token;
pub mod api_key;
pub mod config;
pub mod drg;
pub mod info;
pub mod login;
pub mod token;
pub mod url;
pub mod web;
