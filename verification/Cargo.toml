[package]
name = "reth_tdx"
version = "0.1.0"
edition = "2021"
publish = false

[dependencies]
alloy-primitives = { version = "1", features = ["serde"] }
anyhow = "1"
axum = { version = "0.8", default-features = false, features = ["http1", "json", "tokio"] }
clap = { version = "4", default-features = false, features = ["std", "derive", "env", "help"] }
dirs = "6"
hex = "0.4"
rand = "0.8"
secp256k1 = { version = "0.29", features = ["global-context", "rand", "recovery"] }
serde = { version = "1", features = ["derive"] }
serde_json = "1"
tokio = { version = "1", features = ["macros", "rt-multi-thread", "net", "time"] }
tower-http = { version = "0.6", default-features = false, features = ["limit"] }
tracing = "0.1"
tracing-subscriber = { version = "0.3", default-features = false, features = ["env-filter", "fmt"] }
