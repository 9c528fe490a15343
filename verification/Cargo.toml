[package]
name = "voting"
version = "0.1.0"
edition = "2021"
publish = false

[dependencies]
solana-program = "*"
libc = "*"
clap = { version = "*", features = ["derive"] }
