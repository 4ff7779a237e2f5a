[package]
name = "mqtt_sensor"
version = "0.1.0"
edition = "2021"
publish = false

[dependencies]
rumqttc = { version = "*", default-features = false }
serde = { version = "1", features = ["derive"] }
serde_json = "1"
