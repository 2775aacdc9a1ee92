[package]
name = "curve_fit"
version = "0.1.0"
edition = "2021"
publish = false

[dependencies]
csv = "*"
calamine = "*"
chrono = "*"
serde = { version = "*", features = ["derive"] }
serde_json = "*"
sys-locale = "*"
ratex-parser = "*"
ratex-layout = "*"
ratex-svg = "*"
ratex-types = "*"
