[package]
name = "rsspls"
version = "0.1.0"
edition = "2021"
publish = false

[dependencies]
kuchiki = "=0.8.1"
rss = "=2.1.2"
clap = { version = "=4.4.18", features = ["derive"] }
serde = { version = "=1.0.229", features = ["derive"] }
toml = "=0.8.23"
tokio = { version = "=1.53.2", features = ["rt-multi-thread", "macros"] }
reqwest = { version = "=0.11.27", default-features = false }
futures = "=0.3.34"
log = "=0.4.34"
pretty_env_logger = "=0.5.0"
eyre = "=0.6.14"
simple-eyre = "*"
