[package]
name = "tower-sesh"
version = "0.1.0"
edition = "2021"
publish = false

[dependencies]
base64 = "0.22"
rand = "0.8"
time = "0.3"
cookie = "0.18"
http = "1"
tower-layer = "0.3"
tower-service = "0.3"
pin-project-lite = "0.2"
axum-core = "0.5"
