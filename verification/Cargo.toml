[package]
name = "edcs"
version = "0.1.0"
edition = "2021"
publish = false

[dependencies]
anyhow = "=1.0.104"
async-mutex = "=1.4.1"
base64 = "=0.13.1"
clap = { version = "=3.2.25", features = ["derive"] }
flume = "=0.10.14"
rand = "=0.8.8"
rustls-pemfile = "=1.0.4"
serde = { version = "=1.0.229", features = ["derive"] }
tokio = { version = "=1.53.2", features = ["full"] }
tokio-rustls = { version = "=0.23.4", features = ["dangerous_configuration"] }
toml = "=0.5.11"
webpki = "=0.22.4"

[dev-dependencies]
input-linux-sys = "=0.8.2"
