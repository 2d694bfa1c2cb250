[package]
name = "cashu_lsp"
version = "0.1.0"
edition = "2021"
publish = false

[dependencies]
uuid = { version = "=1.12.1", features = ["v4"] }
cdk = { version = "=0.10.1", default-features = false, features = ["wallet"] }
cdk-redb = "=0.10.1"
axum = "0.8"
tokio = { version = "1", features = ["rt-multi-thread", "macros", "net", "signal"] }
tokio-util = "0.7"
anyhow = "1"
serde = { version = "1", features = ["derive"] }
serde_json = "1"
home = "0.5"
bip39 = "2"
config = "0.15"
tracing = "0.1"
tracing-subscriber = { version = "0.3", features = ["env-filter"] }

[dev-dependencies]
cdk = { version = "=0.10.1", default-features = false, features = ["wallet"] }
uuid = "=1.12.1"
