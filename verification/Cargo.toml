[package]
name = "cargo-pros"
version = "0.1.0"
edition = "2021"
publish = false

[dependencies]
cargo_metadata = "*"
cargo-subcommand-metadata = "*"
clap = { version = "4", features = ["derive"] }
