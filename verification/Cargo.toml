[package]
name = "cargo_tools"
version = "0.1.0"
edition = "2021"
publish = false

[dependencies]
anyhow = "1"
clap = { version = "4", features = ["derive"] }
mcplease = "*"
schemars = "*"
serde = { version = "1", features = ["derive"] }
