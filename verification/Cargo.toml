[package]
name = "bewu"
version = "0.1.0"
edition = "2021"
publish = false

[dependencies]
anyhow = "*"
fd-lock = "*"
iri-string = "*"
reqwest = { version = "*", default-features = false }
tokio = { version = "*", features = ["full"] }
tokio-stream = "*"
url = "*"
