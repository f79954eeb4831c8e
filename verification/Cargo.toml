[package]
name = "avalanche_classifier"
version = "0.1.0"
edition = "2021"
publish = false

[dependencies]
base64 = "*"
eframe = { version = "*", default-features = false, features = ["glow", "x11", "default_fonts"] }
rfd = { version = "*", default-features = false }
image = { version = "*", default-features = false, features = ["jpeg", "png"] }
poll-promise = "*"
reqwest = { version = "*", default-features = false }
tokio = { version = "*", default-features = false, features = ["rt-multi-thread"] }
