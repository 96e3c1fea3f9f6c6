[package]
name = "authentication"
version = "0.1.0"
edition = "2021"
publish = false

[dependencies]
ring = "*"
uuid = { version = "*", features = ["v4"] }
postgres = { version = "*", features = ["with-uuid-1"] }
