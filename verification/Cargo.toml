[package]
name = "mikan_subscribe"
version = "0.1.0"
edition = "2021"
publish = false

[dependencies]
bincode = "=1.3.3"
chrono = "=0.4.45"
clap = { version = "=4.6.7", features = ["derive", "std"], default-features = false }
flume = "=0.12.0"
librqbit = { version = "9.0.1", features = ["rust-tls"], default-features = false }
once_cell = "=1.21.4"
rand = "=0.9.5"
redb = "=4.3.0"
reqwest = { version = "=0.13.5", features = ["json", "socks"], default-features = false }
rss = "=2.1.2"
scraper = "=0.27.0"
serde = { version = "=1.0.229", features = ["derive"] }
serde_json = "=1.0.151"
snafu = "=0.9.2"
tokio = { version = "=1.53.2", features = ["full"] }
tracing = "=0.1.44"
tracing-subscriber = "=0.3.23"
url = "=2.5.8"
