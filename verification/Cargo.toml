[package]
name = "jido_conductor"
version = "0.1.0"
edition = "2021"
publish = false

[dependencies]
keyring = { version = "=3.6.3", features = ["apple-native", "windows-native", "linux-native"] }
uuid = { version = "1", features = ["v4"] }
serde = { version = "1", features = ["derive"] }
