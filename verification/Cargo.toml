[package]
name = "yt_bookmark"
version = "0.1.0"
edition = "2021"
publish = false

[dependencies]
url = "=2.5.8"
fake = { version = "4.4", features = ["derive"] }
rand = "0.9"
thiserror = "=2.0.21"
