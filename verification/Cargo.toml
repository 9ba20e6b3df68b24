[package]
name = "eip-7732"
version = "0.1.0"
edition = "2021"
publish = false

[dependencies]
blst = "0.3"
sha2 = "0.10"
serde = { version = "1", features = ["derive"] }
serde_json = "1"
thiserror = "1"
