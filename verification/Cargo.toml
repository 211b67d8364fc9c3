[package]
name = "risuppu"
version = "0.1.0"
edition = "2021"
publish = false

[dependencies]
unescaper = "*"
clap = { version = "*", features = ["derive"] }
rustyline = "*"
