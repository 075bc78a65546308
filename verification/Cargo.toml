[package]
name = "kotobase"
version = "0.1.0"
edition = "2021"
publish = false

[dependencies]
uuid = { version = "1", features = ["v4"] }
serde = { version = "1", features = ["derive"] }
sqlx = { version = "0.8", default-features = false, features = ["sqlite", "runtime-tokio"] }
tokio = { version = "1", features = ["rt-multi-thread", "macros"] }
image = { version = "0.25", default-features = false, features = ["png"] }
eframe = { version = "0.31", default-features = false, features = ["glow", "default_fonts", "x11"] }
