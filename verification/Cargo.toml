[package]
name = "embedding_core"
version = "0.1.0"
edition = "2021"
publish = false

[dependencies]
serde_json = "1"
candle-core = "*"
candle-nn = "*"
candle-transformers = "*"
tokenizers = "*"
hf-hub = { version = "0.4", default-features = false, features = ["ureq"] }
anyhow = "1"
clap = { version = "4", features = ["derive"] }
lazy_static = "1"
