[package]
name = "corpus_sourcing"
version = "0.1.0"
edition = "2021"
publish = false

[dependencies]
serde_json = "1"
scraper = "*"
reqwest = { version = "*", default-features = false, features = ["rustls-tls"] }
tokio = { version = "*", features = ["macros", "rt-multi-thread"] }
librqbit = "*"
glob = "*"
log = "*"
env_logger = "*"
anyhow = "1"
