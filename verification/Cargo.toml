[package]
name = "prefix_prime"
version = "0.1.0"
edition = "2021"
publish = false

[dependencies]
http = "=1.5.0"
uuid = { version = "=1.29.0", features = ["v7"] }
tokio = { version = "=1.54.1", features = ["time"] }
reqwest = { version = "=0.12.28", default-features = false, features = ["rustls-tls"] }

[dev-dependencies]
serde_json = "=1.0.154"
