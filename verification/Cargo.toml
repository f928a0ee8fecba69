[package]
name = "handlr"
version = "0.1.0"
edition = "2021"
publish = false

[dependencies]
regex = "*"
serde = { version = "*", features = ["derive"] }
xdg = "*"

[dev-dependencies]
url = "*"
