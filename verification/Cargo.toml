[package]
name = "cicd_audit"
version = "0.1.0"
edition = "2021"
publish = false

[dependencies]
gloo-net = "0.6"
base64 = "0.22"
serde = { version = "1", features = ["derive"] }
serde_json = "1"
js-sys = "0.3"
wasm-bindgen-futures = "0.4"
