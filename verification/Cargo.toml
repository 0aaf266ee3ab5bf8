[package]
name = "bardic-chord"
version = "0.1.0"
edition = "2021"
publish = false

[dependencies]
anyhow = "=1.0.104"
base64 = "=0.22.1"
byteorder = "=1.5.0"
cargo_metadata = "=0.19.2"
chrono = "=0.4.45"
directories = "=5.0.1"
open = "=5.4.5"
reqwest = { version = "=0.12.28", default-features = false, features = ["json", "rustls-tls"] }
rustls = { version = "=0.23.46", default-features = false, features = ["ring", "std", "tls12"] }
serde = { version = "=1.0.229", features = ["derive"] }
serde_json = "=1.0.154"
serenity = { version = "=0.12.5", default-features = false, features = ["cache", "client", "gateway", "model", "rustls_backend", "voice"] }
sha2 = "=0.10.9"
songbird = { version = "=0.5.0", default-features = false, features = ["driver", "gateway", "serenity", "rustls", "tungstenite"] }
tar = "=0.4.46"
tokio = { version = "=1.54.1", features = ["full"] }
tracing = "=0.1.44"
tracing-subscriber = "=0.3.23"
xz2 = "=0.1.7"
zip = { version = "=2.6.1", default-features = false, features = ["deflate"] }
