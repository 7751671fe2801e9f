[package]
name = "uptime_check"
version = "0.1.0"
edition = "2021"
publish = false

[dependencies]
actix-web = "*"
chrono = "=0.4.45"
env_logger = "*"
futures = "*"
log = "*"
md5 = "=0.8.1"
memcache = "=0.21.0"
rand = "=0.10.3"
reqwest = { version = "=0.13.5", default-features = false, features = ["gzip", "brotli", "form"] }
serde = { version = "*", features = ["derive"] }
serde_json = "*"
tokio = { version = "*", features = ["rt-multi-thread", "macros", "time"] }
