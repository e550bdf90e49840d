[package]
name = "nbody"
version = "0.1.0"
edition = "2021"
publish = false

[dependencies]
clap = { version = "4", features = ["derive"] }
rand = "0.8"
rayon = "1"
tracing = "0.1"
tracing-subscriber = "0.3"
