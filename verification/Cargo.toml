[package]
name = "rs_pool"
version = "0.1.0"
edition = "2021"
publish = false

[dependencies]
ads1x1x = "0.3"
anyhow = "1"
axum = "0.8"
axum-server = { version = "0.7", features = ["tls-rustls"] }
base64 = "0.22"
bcrypt = "*"
linux-embedded-hal = { version = "0.4", default-features = false, features = ["i2c"] }
nb = "1"
rumqttc = { version = "*", default-features = false }
rustls = "0.23"
serde = { version = "1", features = ["derive"] }
serde_json = "1"
serialport = { version = "4", default-features = false }
thiserror = "2"
tokio = { version = "1", features = ["full"] }
toml = "0.8"
tracing = "0.1"
tracing-subscriber = { version = "0.3", features = ["env-filter"] }
