[package]
name = "pdf_compressor"
version = "0.1.0"
edition = "2021"
publish = false

[dependencies]
lopdf = "*"
flate2 = "*"
image = { version = "*", default-features = false, features = ["jpeg"] }
jpeg-encoder = "*"
clap = { version = "*", features = ["derive"] }
