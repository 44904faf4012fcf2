[package]
name = "link_inspector"
version = "0.1.0"
edition = "2021"
publish = false

[dependencies]
url = "2"
regex = "1"
scraper = "*"
reqwest = { version = "*", default-features = false, features = ["blocking"] }
clap = "2"
clipboard = "*"
env_logger = "*"
log = "*"
serde = { version = "1", features = ["derive"] }
serde_json = "1"
serde_yaml = "*"
thiserror = "1"
