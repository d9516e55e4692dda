[package]
name = "arcos"
version = "0.1.0"
edition = "2021"
publish = false

[dependencies]
sha2 = "0.10"
chrono = "0.4"
serde = { version = "1", features = ["derive"] }
serde_json = "1"
redis = "*"
lettre = { version = "0.11", default-features = false, features = ["smtp-transport", "builder"] }
tokio = { version = "1", features = ["rt-multi-thread", "macros"] }
warp = "0.3"
