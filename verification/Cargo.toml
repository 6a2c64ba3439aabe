[package]
name = "potionforge"
version = "0.1.0"
edition = "2021"
publish = false

[dependencies]
highs = "*"
serde = { version = "1", features = ["derive"] }
serde_yaml = "*"
structopt = "*"
prettytable-rs = "*"
rayon = "*"
