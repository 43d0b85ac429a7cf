[package]
name = "wtbridge"
version = "0.1.0"
edition = "2021"
publish = false

[dependencies]
base64 = "*"
chrono = "*"
clap = { version = "*", features = ["derive"] }
env_logger = "*"
hex = "*"
log = "*"
reqwest = { version = "*", default-features = false }
tokio = { version = "*", features = ["full"] }
wtransport = { version = "*", features = ["self-signed"] }
x509-parser = "*"
