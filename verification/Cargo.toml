[package]
name = "metro_line"
version = "0.1.0"
edition = "2021"
publish = false

[dependencies]
rand = "=0.8.8"

[dependencies.iced]
version = "=0.10.0"
features = ["tokio"]
