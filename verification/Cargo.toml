[package]
name = "supernova"
version = "0.1.0"
edition = "2021"
publish = false

[dependencies]
serde = { version = "1", features = ["derive"] }
crossbeam = "0.8"
rayon = "1"
