[package]
name = "uesave"
version = "0.1.0"
edition = "2021"
publish = false

[dependencies]
byteorder = "1"
uuid = "1"
clap = { version = "4", features = ["derive"] }
anyhow = "1"
