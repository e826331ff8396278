[package]
name = "netchecker"
version = "0.1.0"
edition = "2021"
publish = false

[dependencies]
reqwest = { version = "0.12", default-features = false, features = ["rustls-tls", "socks"] }
tokio = { version = "1", features = ["rt-multi-thread", "macros", "net", "time"] }
futures = "0.3"
hickory-resolver = "0.24"
netdev = "*"
clap = { version = "4", features = ["derive"] }
