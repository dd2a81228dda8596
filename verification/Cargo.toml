[package]
name = "tokkit"
version = "0.1.0"
edition = "2021"
publish = false

[dependencies]
json = "*"
url = "*"
reqwest = { version = "*", default-features = false, features = ["blocking"] }
