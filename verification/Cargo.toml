[package]
name = "libsql"
version = "0.1.0"
edition = "2021"
publish = false

[dependencies]
serde_json = "=1.0.151"
tokio = { version = "=1.53.2", features = ["sync", "rt"] }
crossbeam-channel = "=0.5.17"
futures = "=0.3.34"
async-trait = "=0.1.92"
hrana-client-proto = "=0.2.1"
thiserror = "=2.0.21"
