[package]
name = "koob"
version = "0.1.0"
edition = "2021"
publish = false

[dependencies]
glob = "*"
handlebars = "*"
pandoc = "*"
serde = { version = "*", features = ["derive"] }
serde_yaml = "*"
simply_colored = "*"
thiserror = "*"
