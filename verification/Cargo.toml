[package]
name = "bloginator"
version = "0.1.0"
edition = "2021"
publish = false

[dependencies]
clap = { version = "4", features = ["derive"] }
markdown = "1"
serde = { version = "1", features = ["derive"] }
serde_derive = "1"
toml = "0.8"
tracing = "0.1"
tracing-subscriber = "0.3"
