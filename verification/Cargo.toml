[package]
name = "basket_timer"
version = "0.1.0"
edition = "2021"
publish = false

[dependencies]
anyhow = "1"
dioxus = "0.6"
dirs = "5"
rodio = "0.20"
serde = { version = "1", features = ["derive"] }
serde_json = "1"
tokio = { version = "1", features = ["time", "rt"] }
