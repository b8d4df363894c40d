[package]
name = "notracking"
version = "0.1.0"
edition = "2021"
publish = false

[dependencies]
anyhow = "1"
getopts = "0.2"
lazy_static = "1"
reqwest = { version = "0.11", features = ["blocking"] }
slog = "2"
slog-term = "2"
thiserror = "1"
