[package]
name = "rag_core"
version = "0.1.0"
edition = "2021"
publish = false

[dependencies]
anyhow = "*"
axum = "*"
candle-core = "*"
candle-nn = "*"
candle-transformers = "*"
hf-hub = { version = "*", features = ["tokio"] }
log = "*"
num_cpus = "*"
once_cell = "*"
qdrant-client = "*"
rocksdb = "*"
serde = { version = "*", features = ["derive"] }
serde_json = "*"
serde_yaml = "*"
strum = "*"
strum_macros = "*"
tokenizers = "*"
tokio = { version = "*", features = ["full"] }
tower = { version = "*", features = ["timeout"] }
tower-http = { version = "*", features = ["trace", "compression-gzip"] }
uuid = { version = "*", features = ["v4"] }
