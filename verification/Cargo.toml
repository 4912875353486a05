[package]
name = "loa_assist"
version = "0.1.0"
edition = "2021"
publish = false

[dependencies]
semver = "=1.0.28"
sha2 = "=0.10.9"
serde = { version = "=1.0.229", features = ["derive"] }
serde_json = "=1.0.154"
tokio = { version = "=1.54.1", features = ["sync", "time", "fs", "rt"] }
dirs = "=7.0.0"
dotenv = "=0.15.0"
once_cell = "=1.21.4"
os_info = "=3.15.0"
tempfile = "=3.27.0"
reqwest = { version = "0.12", default-features = false, features = ["json", "rustls-tls"] }
enigo = "0.1"
