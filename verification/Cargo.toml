[package]
name = "ord_core"
version = "0.1.0"
edition = "2021"
publish = false

[dependencies]
bitcoin = "0.29"
hex = "0.4"
serde = { version = "1", features = ["derive"] }
clap = { version = "4", features = ["derive"] }
