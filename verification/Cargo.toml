[package]
name = "connect_four"
version = "0.1.0"
edition = "2021"
publish = false

[dependencies]
rand = "0.8"
poem = "3"
tokio = { version = "1", features = ["macros", "rt-multi-thread"] }
