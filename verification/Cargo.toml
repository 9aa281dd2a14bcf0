[package]
name = "pg_search"
version = "0.1.0"
edition = "2021"
publish = false

[dependencies]
anyhow = "1"
chrono = "=0.4.45"
derive_more = "0.99"
serde = { version = "=1.0.229", features = ["derive"] }
serde_json = "=1.0.154"
tantivy = "=0.21.1"
thiserror = "1"
utoipa = "4"
zstd-sys = "=2.0.8"
