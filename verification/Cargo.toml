[package]
name = "timespinner_map"
version = "0.1.0"
edition = "2021"
publish = false

[dependencies]
flate2 = "*"
quick-xml = "*"
clap = { version = "*", features = ["derive"] }
