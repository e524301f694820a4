[package]
name = "mini_crater"
version = "0.1.0"
edition = "2021"
publish = false

[dependencies]
argh = "=0.1.19"
cargo-util-schemas = "=0.7.2"
crossterm = { version = "=0.28.1", features = ["event-stream"] }
futures = "=0.3.34"
ratatui = { version = "=0.29.0", features = ["unstable-rendered-line-info"] }
regex = "=1.13.1"
reqwest = { version = "=0.12.28", default-features = false, features = ["blocking", "rustls-tls"] }
semver = { version = "=1.0.28", features = ["serde"] }
serde = { version = "=1.0.229", features = ["derive"] }
serde_json = "=1.0.154"
serde_urlencoded = "=0.7.1"
tempfile = "=3.27.0"
tokio = { version = "=1.54.1", features = ["macros", "rt", "sync"] }
tokio-stream = "=0.1.19"
toml = "=0.8.23"
tracing = "=0.1.44"
tracing-subscriber = { version = "=0.3.23", features = ["env-filter"] }
tui-widgets = { version = "=0.4.1", default-features = false, features = ["scrollview"] }
url = "=2.5.8"
walkdir = "=2.5.0"
