[package]
name = "wasmedge_asyncify"
version = "0.1.0"
edition = "2021"
publish = false

[dependencies]
binaryen = "*"
serde = { version = "*", features = ["derive"] }
serde_json = "*"
tokio = { version = "*", features = ["full"] }
socket2 = "*"
