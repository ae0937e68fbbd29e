[package]
name = "steel_core"
version = "0.1.0"
edition = "2021"
publish = false

[dependencies]
rustc-hash = "=2.1.3"
uuid = { version = "=1.29.0", features = ["v4", "serde"] }
serde = { version = "=1.0.229", features = ["derive"] }
thiserror = "=2.0.21"
text_components = { version = "=0.1.6", features = ["serde"] }
