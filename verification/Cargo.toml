[package]
name = "gancube"
version = "0.1.0"
edition = "2021"
publish = false

[dependencies]
aes = "0.8"
cbc = "0.1"
futures = "0.3"
pin-project = "1"
rubikmaster = "*"
tokio = { version = "1", features = ["time"] }
uuid = "1"
