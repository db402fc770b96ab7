[package]
name = "sphragis"
version = "0.1.0"
edition = "2021"
publish = false

[dependencies]
argon2 = { version = "0.5", features = ["zeroize"] }
atty = "0.2"
base64 = "0.22"
clap = { version = "4", features = ["derive"] }
crossterm = "0.28"
eyre = "0.6"
hex = "0.4"
indicatif = "0.17"
json5 = "0.4"
rand_core = { version = "0.9", features = ["os_rng"] }
serde = { version = "1", features = ["derive"] }
tracing = "0.1"
tracing-subscriber = "0.3"
zeroize = "1"
