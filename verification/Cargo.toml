[package]
name = "pg_mux"
version = "0.1.0"
edition = "2021"
publish = false

[dependencies]
clap = { version = "*", features = ["derive"] }
console = "*"
dialoguer = "*"
process-muxer = "*"
regex = "*"
