[package]
name = "aegis"
version = "0.1.0"
edition = "2021"
publish = false

[dependencies]
regex = "1"
dashmap = "5"
petgraph = "0.6"
chrono = { version = "0.4", features = ["serde"] }
sha2 = "0.10"
uuid = { version = "1", features = ["v4", "serde"] }
serde = { version = "1", features = ["derive"] }
serde_json = "1"
tokio = { version = "1", features = ["full"] }
anyhow = "1"
clap = { version = "4", features = ["derive"] }
toml = "0.8"
flate2 = "1"
redb = "1"
bincode = "1"
pcap-parser = "0.14"
etherparse = "0.13"
notify = "6"
linemux = "0.3"
futures = "0.3"
ignore = "0.4"
syn = { version = "2", features = ["full"] }
quote = "1"
rayon = "1"
tiktoken-rs = "0.5"
axum = { version = "0.7", features = ["multipart"] }
mime_guess = "2"
ratatui = "0.26"
crossterm = "0.27"
webbrowser = "0.8"
