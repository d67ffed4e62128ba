[package]
name = "nft_fetch"
version = "0.1.0"
edition = "2021"

[dependencies]
mpl-token-metadata = "=1.6.5"
solana-program = "=1.14.29"
serde = { version = "=1.0.229", features = ["derive"] }
serde_json = "=1.0.154"
axum = "0.6"
tokio = { version = "1", features = ["macros", "rt-multi-thread"] }
reqwest = { version = "0.11", default-features = false, features = ["json", "rustls-tls"] }
tracing = "0.1"
tracing-subscriber = "0.3"
dotenv = "0.15"
