[package]
name = "sidecar_supervisor"
version = "0.1.0"
edition = "2021"
publish = false

[dependencies]
dotenv = "0.15"
log = "0.4"
reqwest = { version = "0.12", default-features = false, features = ["blocking"] }
