//! The logic of a TLS transport link: how credentials and trust anchors are picked
//! out of an endpoint's configuration, how client and server TLS configurations are
//! put together, and what each step of connecting, listening and accepting leads to.

pub mod accept;
pub mod anchors;
pub mod client;
pub mod config;
pub mod credentials;
pub mod endpoint;
pub mod error;
pub mod identity;
pub mod laws;
pub mod link;
pub mod link_setup;
pub mod listener_setup;
pub mod manager;
pub mod outside;
pub mod pem;
pub mod server;
pub mod text;
pub mod views;
