[package]
name = "theme_state"
version = "0.1.0"
edition = "2021"
publish = false

[dependencies]
directories = "*"
lazy_static = "1"
serde = { version = "1", features = ["derive"] }
serde_json = { version = "1", features = ["preserve_order"] }
tracing = "0.1"
