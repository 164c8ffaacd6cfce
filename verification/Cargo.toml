[package]
name = "ronin_wally"
version = "0.1.0"
edition = "2021"
publish = false

[dependencies]
futures = "=0.3.34"
mongodb = "=2.8.2"
reqwest = { version = "=0.11.27", default-features = false, features = ["rustls-tls"] }
reqwest-middleware = "=0.1.6"
reqwest-retry = "=0.1.5"
retry-policies = "=0.1.2"
serde = { version = "=1.0.229", features = ["derive"] }
serde_json = "=1.0.154"
tokio = { version = "=1.54.1", features = ["macros", "rt-multi-thread", "time"] }
