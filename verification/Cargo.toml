[package]
name = "ccdown"
version = "0.1.0"
edition = "2021"
publish = false

[dependencies]
clap = { version = "4", features = ["derive"] }
indicatif = "*"
reqwest = { version = "*", default-features = false }
reqwest-middleware = { version = "*", default-features = false }
tokio = { version = "1", features = ["rt"] }
url = "2"
