[package]
name = "emugator_core"
version = "0.1.0"
edition = "2021"
publish = false

[dependencies]
bimap = "*"
ibig = "*"
clap = { version = "*", features = ["derive"] }
serde = { version = "*", features = ["derive"] }
serde_json = "*"
hex = { version = "*", features = ["serde"] }
color-eyre = "*"
crossterm = "*"
ratatui = "*"
