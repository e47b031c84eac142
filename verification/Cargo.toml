[package]
name = "lazycli"
version = "0.1.0"
edition = "2021"
publish = false

[dependencies]
regex = "1"
serde = { version = "1", features = ["derive"] }
serde_yaml = "0.9"
clap = "4"
crossterm = "0.25"
tui = { version = "0.19", default-features = false, features = ["crossterm"] }
ticker = "*"
directories = "*"
