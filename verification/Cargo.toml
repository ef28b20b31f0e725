[package]
name = "cli"
version = "0.1.0"
edition = "2021"
publish = false

[dependencies]
clap = { version = "=4.6.7", features = ["derive"] }
color-eyre = "=0.6.5"
ethers = { version = "=2.0.14", default-features = false, features = ["abigen"] }
hex = "=0.4.3"
serde_json = "=1.0.154"
strum = { version = "=0.28.0", features = ["derive"] }
tokio = { version = "=1.54.1", features = ["rt", "macros"] }
