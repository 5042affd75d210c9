[package]
name = "render_pool"
version = "0.1.0"
edition = "2021"
publish = false

[dependencies]
anyhow = "=1.0.104"
base64 = "=0.22.1"
colored = "=2.2.0"
futures = "=0.3.34"
headless_chrome = "=1.0.18"
image = "=0.24.9"
rand = "=0.8.8"
serde_json = "=1.0.151"
tokio = { version = "=1.53.2", features = ["full"] }
