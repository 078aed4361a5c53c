[package]
name = "mre"
version = "0.1.0"
edition = "2021"
publish = false

[dependencies]
anyhow = "1"
clap = { version = "4", features = ["derive"] }
crossterm = "*"
notify = "*"
pulldown-cmark = { version = "*", default-features = false, features = ["html"] }
ratatui = "*"
syntect = { version = "5", default-features = false, features = ["default-fancy"] }
webbrowser = "*"
