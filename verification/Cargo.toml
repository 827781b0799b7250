[package]
name = "click_endpoint"
version = "0.1.0"
edition = "2021"
publish = false

[dependencies]
enigo = "*"
axum = "*"
log = "*"
tokio = { version = "*", features = ["rt", "rt-multi-thread", "net", "macros"] }
