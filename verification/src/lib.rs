pub mod config;
pub mod keep_alive;
pub mod nat_service;
pub mod net;
pub mod stun;
pub mod upnp;
