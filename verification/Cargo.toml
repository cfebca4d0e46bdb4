[package]
name = "iot_edge"
version = "0.1.0"
edition = "2021"
publish = false

[dependencies]
chrono = "0.4"
fastrand = "2"
rand = "0.8"
serde = { version = "1", features = ["derive"] }
toml = "0.8"
which = "6"
