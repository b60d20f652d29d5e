[package]
name = "aw_rss"
version = "0.1.0"
edition = "2021"
publish = false

[dependencies]
async-channel = "=2.5.0"
atom_syndication = "=0.12.10"
axum = "=0.8.9"
chrono = "=0.4.45"
clap = { version = "=4.6.7", features = ["derive"] }
color-eyre = "=0.6.5"
dateparser = "=0.2.1"
event-listener = "=5.4.2"
futures-util = "=0.3.34"
humansize = "=2.1.3"
mapped_futures = "=0.1.13"
mime_guess = "=2.0.5"
once_cell = "=1.21.4"
reqwest = { version = "=0.12.28", default-features = false, features = ["rustls-tls", "brotli", "gzip", "deflate"] }
rss = "=2.1.2"
scraper = "=0.23.1"
serde = { version = "=1.0.229", features = ["derive"] }
sha2 = "=0.10.9"
shlex = "=1.3.0"
signal-hook = "=0.3.18"
sqlx = { version = "=0.8.6", default-features = false, features = ["sqlite", "runtime-tokio", "chrono", "migrate", "derive"] }
thiserror = "=1.0.69"
toml = "0.8"
tokio = { version = "=1.54.1", features = ["fs", "macros", "net", "process", "rt", "sync", "time"] }
tower = { version = "=0.5.3", features = ["limit", "util"] }
tower-http = { version = "=0.6.11", features = ["trace", "timeout"] }
tracing = "=0.1.44"
tracing-error = "=0.2.1"
tracing-subscriber = { version = "=0.3.23", features = ["env-filter"] }
url = "=2.5.8"
