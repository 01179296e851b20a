[package]
name = "zenoh_link_tls"
version = "0.1.0"
edition = "2021"
publish = false

[dependencies]
async-rustls = { version = "0.4", features = ["dangerous_configuration"] }
async-std = { version = "1.12", features = ["unstable"] }
base64 = "0.21"
futures = "0.3"
log = "0.4"
rustls-pemfile = "2"
rustls-webpki = "0.102"
socket2 = "0.4"
webpki-roots = "0.26"
