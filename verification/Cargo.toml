[package]
name = "netplay"
version = "0.1.0"
edition = "2021"
publish = false

[dependencies]
hex = "=0.4.3"
chrono = "=0.4.45"
serde = { version = "=1.0.229", features = ["derive"] }
serde_json = "=1.0.154"
tokio = { version = "=1.54.1", features = ["full"] }
futures-util = { version = "=0.3.34", features = ["sink"] }
warp = "=0.3.7"
actix-web = "=4.18.1"
reqwest = { version = "=0.12.28", default-features = false, features = ["json", "stream", "rustls-tls"] }
tokio-tungstenite = "=0.21.0"
url = "=2.5.8"
uuid = { version = "=1.29.1", features = ["v4"] }
rust-ocpp = { version = "=3.0.4", features = ["v1_6"] }
