[package]
name = "atlas77"
version = "0.5.0"
edition = "2021"
publish = false

[dependencies]
serde = { version = "=1.0.229", features = ["derive"] }
ron = "=0.8.1"
clap = { version = "=4.6.7", features = ["derive"] }
rand = "=0.8.8"
miette = "=7.6.0"
time = { version = "0.3", features = ["formatting", "parsing"] }
