[package]
name = "jinx"
version = "1.0.0"
edition = "2021"
publish = false

[dependencies]
ahash = "=0.8.12"
bytes = "=1.12.1"
clap = { version = "=4.6.7", features = ["derive"] }
jiff = "=0.2.39"
papaya = "=0.2.5"
percent-encoding = "=2.3.2"
poise = "=0.6.2"
rand = "=0.9.5"
regex = "=1.13.1"
reqwest = { version = "=0.12.28", default-features = false, features = ["brotli", "deflate", "gzip", "http2", "json", "rustls-tls", "zstd"] }
semver = "=1.0.28"
serde = { version = "=1.0.229", features = ["derive"] }
serde_json = "=1.0.154"
sqlx = { version = "=0.8.6", default-features = false, features = ["runtime-tokio", "sqlite"] }
tokio = { version = "=1.54.1", features = ["macros", "rt-multi-thread", "signal", "sync", "time"] }
tracing = "=0.1.44"
tracing-subscriber = { version = "=0.3.23", features = ["env-filter"] }
trie-rs = "=0.4.2"
