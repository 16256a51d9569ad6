[package]
name = "circles_sketch"
version = "0.1.0"
edition = "2021"
publish = false

[dependencies]
clap = { version = "4", features = ["derive"] }
font-kit = "*"
serde = { version = "1", features = ["derive"] }
serde_yaml = "0.9"
ttf-parser = "*"
