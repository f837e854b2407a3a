[package]
name = "feldspar-map"
version = "0.1.0"
edition = "2021"
publish = false

[dependencies]
bevy = { version = "=0.18.1", default-features = false, features = ["std", "bevy_log"] }
futures-lite = "=2.6.1"
serde = { version = "=1.0.229", features = ["derive"] }
