[package]
name = "ferrosonic"
version = "0.1.0"
edition = "2021"
publish = false

[dependencies]
md5 = "*"
rand = "*"
url = "2"
reqwest = { version = "*", default-features = false }
tokio = { version = "1", features = ["rt-multi-thread", "macros", "sync", "time"] }
serde = { version = "1", features = ["derive"] }
serde_json = "1"
toml = "*"
thiserror = "*"
ratatui = "*"
crossterm = "*"
libc = "0.2"
vt100 = "*"
cpal = "*"
tracing = "0.1"
