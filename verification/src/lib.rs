pub mod codec;
pub mod init;
pub mod json;
pub mod registry;
pub mod resources;
pub mod text;
pub mod tools;
