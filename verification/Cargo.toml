[package]
name = "servman"
version = "0.1.0"
edition = "2021"
publish = false

[dependencies]
attohttpc = "*"
serde = { version = "*", features = ["derive"] }
serde-xml-rs = "*"
