[package]
name = "cadence_crater"
version = "0.1.0"
edition = "2021"
publish = false

[dependencies]
toml = "0.5"
clap = { version = "3", features = ["derive"] }
git2 = { version = "0.13", default-features = false }
serde = "1"
serde_derive = "1"
