[package]
name = "txtgrind"
version = "0.1.0"
edition = "2021"
publish = false

[dependencies]
rfd = { version = "*", default-features = false, features = ["xdg-portal", "tokio"] }
tokio = { version = "1", features = ["fs", "rt-multi-thread", "macros", "io-std", "io-util"] }
