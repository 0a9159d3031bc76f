[package]
name = "ethbot"
version = "0.1.0"
edition = "2021"
publish = false

[dependencies]
web3 = { version = "*", default-features = false, features = ["http"] }
rustc-hex = "*"
telegram-bot = "*"
tokio = { version = "*", features = ["macros", "rt-multi-thread"] }
