[package]
name = "remote_shutdown"
version = "0.1.0"
edition = "2021"
publish = false

[dependencies]
rumqttc = { version = "*", features = ["websocket", "use-rustls"] }
rustls-native-certs = "*"
serde = { version = "*", features = ["derive"] }
config-file = "*"
system_shutdown = "*"
