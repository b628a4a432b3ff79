[package]
name = "liveview_poem"
version = "0.1.0"
edition = "2021"
publish = false

[dependencies]
poem = { version = "*", features = ["websocket"] }
futures-util = "*"
tokio = { version = "*", features = ["macros", "rt-multi-thread"] }
