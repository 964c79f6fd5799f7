[package]
name = "audiogram"
version = "0.1.0"
edition = "2021"
publish = false

[dependencies]
owned_ttf_parser = { version = "=0.19.0", default-features = false, features = ["std"] }
printpdf = "=0.7.0"
