[package]
name = "marta_cache"
version = "0.1.0"
edition = "2021"
publish = false

[dependencies]
bytes = "=1.12.1"
dirs = "=5.0.1"
log = "=0.4.34"
pretty_env_logger = "=0.5.0"
reqwest = { version = "=0.12.28", default-features = false, features = ["blocking", "rustls-tls"] }
tokio = { version = "=1.54.1", features = ["rt-multi-thread"] }
warp = { version = "=0.3.7", default-features = false, features = ["tls"] }
zip = { version = "=2.6.1", default-features = false, features = ["deflate"] }
