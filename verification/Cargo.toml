[package]
name = "iced_style_config"
version = "0.2.0"
edition = "2021"
publish = false

[dependencies]
toml = "=0.5.11"
iced_native = "=0.5.1"
iced_style = "=0.4.0"
iced_futures = "=0.4.1"
iced_graphics = { version = "0.3", features = ["qr_code"] }
notify = "=5.2.0"
tokio = { version = "=1.54.1", features = ["sync"] }
futures-util = "=0.3.34"
async-stream = "=0.3.6"
thiserror = "=1.0.69"
