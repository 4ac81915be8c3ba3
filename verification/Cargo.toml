[package]
name = "dw3000_ng"
version = "0.1.0"
edition = "2021"
publish = false

[dependencies]
embedded-hal = "0.2.7"
nb = "1"
byte = "0.2"
smoltcp = "0.11"
serde = { version = "1", features = ["derive"] }
