[package]
name = "libsql_replication"
version = "0.1.0"
edition = "2021"
publish = false

[dependencies]
anyhow = "1"
bytes = "1"
crc = "3"
futures = "0.3"
nix = { version = "0.26", features = ["fs"] }
parking_lot = "0.12"
serde = { version = "1", features = ["derive"] }
thiserror = "1"
tokio = { version = "1", features = ["sync", "rt"] }
tokio-stream = "0.1"
tonic = "0.10"
uuid = { version = "1", features = ["v4", "serde"] }
