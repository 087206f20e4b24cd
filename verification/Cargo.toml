[package]
name = "arrowcss"
version = "0.1.0"
edition = "2021"
publish = false

[dependencies]
memchr = "=2.8.3"
cssparser = "=0.33.0"
lightningcss = { version = "=1.0.0-alpha.72", default-features = false }
serde = { version = "=1.0.229", features = ["derive"] }
serde_json = { version = "=1.0.154", features = ["preserve_order"] }
