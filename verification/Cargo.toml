[package]
name = "headlines"
version = "0.1.0"
edition = "2021"
publish = false

[dependencies]
confy = "0.4"
eframe = "0.17"
gloo-timers = "0.2"
serde = { version = "1", features = ["derive"] }
tracing = "0.1"
tracing-subscriber = "0.3"
tracing-wasm = "0.2"
wasm-bindgen-futures = "0.4"
