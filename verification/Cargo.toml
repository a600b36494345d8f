[package]
name = "athenut_mint"
version = "0.1.0"
edition = "2021"
publish = false

[dependencies]
anyhow = "=1.0.104"
async-trait = "=0.1.92"
axum = "=0.8.9"
bip39 = "=2.2.2"
bitcoin = { version = "=0.32.102", features = ["serde"] }
cdk = { version = "=0.18.2", default-features = false, features = ["wallet"] }
cdk-common = "=0.18.2"
cdk-sqlite = "=0.18.2"
clap = { version = "=4.6.7", default-features = false, features = ["std", "derive", "help", "usage"] }
cln-rpc = "=0.7.0"
config = { version = "=0.15.27", default-features = false, features = ["toml"] }
futures = "=0.3.34"
futures-core = "=0.3.34"
home = "=0.5.12"
redb = "=2.6.4"
reqwest = { version = "=0.12.28", default-features = false, features = ["json", "rustls-tls"] }
serde = { version = "=1.0.229", features = ["derive"] }
serde_json = "=1.0.154"
thiserror = "=2.0.21"
tokio = { version = "=1.54.1", features = ["rt-multi-thread", "macros", "signal", "net", "time", "sync"] }
tokio-util = "=0.7.20"
tower-http = { version = "=0.7.1", features = ["cors"] }
tracing = "=0.1.44"
tracing-subscriber = { version = "=0.3.23", features = ["env-filter"] }
uuid = { version = "=1.29.0", features = ["v4"] }
