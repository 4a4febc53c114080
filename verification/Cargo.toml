[package]
name = "numbering"
version = "0.1.0"
edition = "2021"
publish = false

[dependencies]
ecow = "0.2"
chinese-number = { version = "0.7", default-features = false, features = ["number-to-chinese"] }
