[package]
name = "chord_rs"
version = "0.1.0"
edition = "2021"
publish = false

[dependencies]
seahash = "*"
clap = { version = "*", features = ["derive"] }
log = "*"
simplelog = "*"
