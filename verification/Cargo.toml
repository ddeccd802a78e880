[package]
name = "yuki_rs"
version = "0.1.0"
edition = "2021"
publish = false

[dependencies]
chrono = "*"
rand = "*"
serde = { version = "*", features = ["derive"] }
thiserror = "*"
tokio = { version = "*", features = ["time", "macros", "rt"] }
tokio-util = "*"
firestore = "*"
