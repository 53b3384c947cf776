[package]
name = "closeshare"
version = "0.1.0"
edition = "2021"
publish = false

[dependencies]
# AES-256-GCM for chunk payloads: the README promises end-to-end encryption
# of all transfers.
aes-gcm = "0.10"
bincode = "=1.3.3"
blake3 = "=1.8.7"
bytes = "=1.12.1"
chrono = { version = "=0.4.45", features = ["serde"] }
dashmap = "=5.5.3"
dirs-next = "=2.0.0"
mime_guess = "=2.0.5"
parking_lot = "=0.12.5"
rand = "=0.8.8"
serde = { version = "=1.0.229", features = ["derive"] }
serde_json = "=1.0.154"
thiserror = "=1.0.69"
tokio = { version = "=1.54.1", features = ["full"] }
tracing = "=0.1.44"
uuid = { version = "=1.29.1", features = ["v4", "serde"] }
walkdir = "=2.5.0"
whoami = "=1.6.1"
zip = { version = "=0.6.6", default-features = false, features = ["deflate"] }
zstd = "=0.13.4"
