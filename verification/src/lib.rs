pub mod address;
pub mod config;
pub mod error;
pub mod laws;
pub mod params;
pub mod server;
pub mod text;
