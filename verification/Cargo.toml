[package]
name = "rush"
version = "0.1.0"
edition = "2021"
publish = false

[dependencies]
chrono = { version = "=0.4.45", default-features = false, features = ["clock"] }
colored = "=2.2.0"
regex = "=1.13.1"
serde_json = "=1.0.154"
tokio = { version = "=1.54.1", features = ["full"] }
reqwest = { version = "=0.12.28", default-features = false, features = ["rustls-tls", "stream"] }
futures = "=0.3.34"
openssh = "=0.11.6"
teloxide = { version = "=0.13.0", default-features = false, features = ["rustls", "ctrlc_handler"] }
# Not called directly: teloxide-core depends on it. Held at 0.1.1 because
# later releases need a newer Rust compiler than the one this crate builds with.
takecell = "=0.1.1"
ratatui = "=0.29.0"
crossterm = "=0.28.1"
dotenv = "=0.15.0"
simplelog = "=0.12.2"
log = "=0.4.35"
