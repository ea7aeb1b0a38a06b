[package]
name = "cargo_shipit"
version = "0.1.0"
edition = "2021"
publish = false

[dependencies]
cargo_metadata = "*"
clap = { version = "*", features = ["derive"] }
serde = { version = "*", features = ["derive"] }
serde_json = "*"
ssh2 = "*"
