[package]
name = "happy_server"
version = "0.1.0"
edition = "2021"
publish = false

[dependencies]
colored = "2"
clap = "2"
clipboard = "0.5"
actix-web = { version = "3", features = ["rustls"] }
actix-files = "0.5"
rustls = "0.18"
tokio = { version = "0.2", features = ["full"] }
