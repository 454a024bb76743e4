[package]
name = "grok_list"
version = "0.1.0"
edition = "2021"
publish = false

[dependencies]
bson = "2"
mongodb = "3"
serde = { version = "1", features = ["derive"] }
futures = "0.3"
thiserror = "1"
rocket = { version = "0.5", features = ["json"] }
