[package]
name = "polysock"
version = "0.1.0"
edition = "2021"
publish = false

[dependencies]
serde_json = "1"
pretty-hex = "*"
clap = { version = "4", features = ["derive"] }
serde = { version = "1", features = ["derive"] }
log = "0.4"
