[package]
name = "xcompress"
version = "0.1.0"
edition = "2021"
publish = false

[dependencies]
anyhow = "1"
byte-unit = "4"
clap = { version = "4", features = ["derive"] }
concat-with = "0.2"
execute = "0.2"
num_cpus = "1"
path-absolutize = "3"
scanner-rust = "2"
terminal_size = "0.3"
