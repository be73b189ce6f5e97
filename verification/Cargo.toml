[package]
name = "portable_env"
version = "0.1.0"
edition = "2021"
publish = false

[dependencies]
docopt = "1"
serde = "1"
serde_derive = "1"
toml = "*"
