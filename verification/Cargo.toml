[package]
name = "gemini_server"
version = "0.1.0"
edition = "2021"
publish = false

[dependencies]
percent-encoding = "2"
url = "2"
mime_guess = "2"
mime = "0.3"
tokio = { version = "1", features = ["full"] }
tokio-rustls = "0.24"
rustls = "0.21"
rustls-pemfile = "1"
clap = { version = "4", features = ["derive"] }
env_logger = "0.10"
log = "0.4"
