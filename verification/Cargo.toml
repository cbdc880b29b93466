[package]
name = "nh_core"
version = "0.1.0"
edition = "2021"
publish = false

[dependencies]
hashbrown = "0.15"
serde = { version = "1", features = ["derive"] }
serde_json = "1"
strum = { version = "0.26", features = ["derive"] }
