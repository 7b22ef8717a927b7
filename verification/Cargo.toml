[package]
name = "blaze_relay"
version = "0.1.0"
edition = "2021"
publish = false

[dependencies]
tdf = "=0.4.0"
tokio = { version = "=1.53.2", features = ["full"] }
tokio-util = { version = "=0.7.19", features = ["codec"] }
bytes = "=1.12.1"
futures-util = { version = "=0.3.34", features = ["sink"] }
serde = { version = "=1.0.229", features = ["derive"] }
reqwest = { version = "=0.12.28", default-features = false, features = ["json", "rustls-tls"] }
blaze-ssl-async = "=0.4.0"
