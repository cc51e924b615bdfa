[package]
name = "pubnub"
version = "0.1.0"
edition = "2021"
publish = false

[dependencies]
urlencoding = "2"
json = "0.12"
thiserror = "1"
tokio = { version = "1", default-features = false, features = ["sync", "rt", "time", "macros"] }
