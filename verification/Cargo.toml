[package]
name = "metrohero_rs"
version = "0.1.0"
edition = "2021"
publish = false

[dependencies]
reqwest = { version = "*", default-features = false, features = ["blocking", "rustls-tls"] }
serde_json = "*"
clap = { version = "*", features = ["derive"] }
comfy-table = "*"
crossterm = "*"

[dev-dependencies]
mockito = "*"
