[package]
name = "qsync"
version = "0.1.0"
edition = "2021"
publish = false

[dependencies]
anyhow = "1"
bincode = "1"
blake3 = "1"
zstd = "0.13"
serde = { version = "1", features = ["derive"] }
clap = { version = "4", features = ["derive"] }
tokio = { version = "1", features = ["full"] }
quinn = "0.11"
rustls = "0.23"
rustls-pki-types = "1"
rcgen = "0.13"
directories-next = "2"
tempfile = "3"
futures = "0.3"
