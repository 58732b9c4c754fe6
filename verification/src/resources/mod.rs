pub mod apps;
pub mod devices;
