[package]
name = "opensi"
version = "0.1.0"
edition = "2021"
publish = false

[dependencies]
percent-encoding = "2"
quick-xml = { version = "0.18", features = ["serialize"] }
serde = { version = "1", features = ["derive"] }
zip = { version = "0.5", default-features = false, features = ["deflate"] }
