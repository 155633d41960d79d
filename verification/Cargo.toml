[package]
name = "confuse"
version = "0.1.0"
edition = "2021"
publish = false

[dependencies]
anyhow = "1"
cargo_metadata = "0.15"
log = "0.4"
num = "0.4"
num-derive = "0.4"
num-traits = "0.2"
raw-cstr = "*"
regex = "1"
serde = { version = "1", features = ["derive"] }
simics-api-sys = "*"
walkdir = "2"
