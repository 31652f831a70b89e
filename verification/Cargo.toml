[package]
name = "honey_id_client"
version = "0.1.0"
edition = "2021"
publish = false

[dependencies]
uuid = { version = "=1.27.0", features = ["serde"] }
serde = { version = "=1.0.229", features = ["derive"] }
serde_json = "=1.0.151"
tokio = { version = "=1.53.2", features = ["net", "rt"] }
tokio-tungstenite = "=0.30.0"
futures = "=0.3.34"
url = "=2.5.8"
secrecy = "=0.10.3"
