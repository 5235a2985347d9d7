pub mod app;
pub mod config;
pub mod constants;
pub mod deliver;
pub mod map;
pub mod text;
pub mod upnp;
