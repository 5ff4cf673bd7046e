[package]
name = "cosmic_attrs"
version = "0.1.0"
edition = "2021"
publish = false

[dependencies]
fontdb = { version = "0.23", default-features = false, features = ["std"] }
rangemap = "1"
smol_str = "0.2"
