[package]
name = "tuic"
version = "0.1.0"
edition = "2021"
publish = false

[dependencies]
anyhow = "1"
blake3 = "=1.8.7"
bytes = "=1.12.1"
env_logger = "0.11"
futures = "0.3"
getopts = "=0.2.24"
lexopt = "=0.3.2"
log = "=0.4.34"
parking_lot = "0.12"
quinn = { version = "=0.11.12", default-features = false, features = ["platform-verifier", "runtime-tokio", "rustls"] }
rustls = { version = "=0.23.46", default-features = false, features = ["ring", "std"] }
rustls-pemfile = "=2.2.0"
serde = { version = "1", features = ["derive"] }
serde_json = "1"
thiserror = "1"
tokio = { version = "1", features = ["full"] }
