[package]
name = "mini_health_check"
version = "0.1.0"
edition = "2021"
publish = false

[dependencies]
rustls = { version = "=0.21.12", features = ["dangerous_configuration"] }
rustls-native-certs = "=0.6.3"
ureq = "=2.8.0"
