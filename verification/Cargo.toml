[package]
name = "ncm_downloader"
version = "0.1.0"
edition = "2021"
publish = false

[dependencies]
anyhow = "1"
bytes = "1"
cookie_store = "*"
futures-util = "0.3"
indicatif = "*"
lofty = "*"
log = "0.4"
ncm_api = "*"
reqwest = { version = "0.12", features = ["stream"] }
serde = { version = "1", features = ["derive"] }
serde_with = "3"
serde_yaml = "0.9"
thiserror = "*"
tokio = { version = "1", features = ["full"] }
unicode-segmentation = "1"
url = "2"
