[package]
name = "iching"
version = "0.1.0"
edition = "2021"
publish = false

[dependencies]
fastrand = "2"
clap = { version = "4", features = ["derive"] }
serde = "1"
serde_derive = "1"
serde_json = "1"
termcolor = "1"
atty = "0.2"
rand = "0.8"
