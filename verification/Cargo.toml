[package]
name = "moser"
version = "0.1.0"
edition = "2021"
publish = false

[dependencies]
strsim = "*"
rand = "*"
clap = { version = "*", features = ["derive"] }
confy = "*"
ratatui = "*"
rodio = "*"
serde = { version = "*", features = ["derive"] }
