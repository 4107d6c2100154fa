[package]
name = "bionic_reading_api"
version = "0.1.0"
edition = "2021"
publish = false

[dependencies]
html2md = "*"
reqwest = { version = "*", default-features = false, features = ["multipart"] }
