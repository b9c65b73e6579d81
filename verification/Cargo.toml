[package]
name = "fluent_js_entries"
version = "0.1.0"
edition = "2021"
publish = false

[dependencies]
fluent = "=0.0.1"
serde = { version = "=1.0.229", features = ["derive"] }
serde_json = { version = "=1.0.154", features = ["preserve_order"] }
