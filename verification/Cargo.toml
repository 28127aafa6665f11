[package]
name = "pubchem_client"
version = "0.1.0"
edition = "2021"
publish = false

[dependencies]
json = "*"
http = "*"
reqwest = { version = "*", default-features = false, features = ["blocking"] }
