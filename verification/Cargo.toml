[package]
name = "particle_transport"
version = "0.1.0"
edition = "2021"
publish = false

[dependencies]
rand = "0.8"
approx = "0.5"
wasm-bindgen = "0.2"
serde-wasm-bindgen = "0.6"
