[package]
name = "dessert"
version = "0.1.0"
edition = "2021"
publish = false

[dependencies]
anyhow = "1"
clap = { version = "4", features = ["derive"] }
log = "0.4"
regex = "1"
reqwest = { version = "0.12", features = ["blocking", "multipart"] }
serde = { version = "1", features = ["derive"] }
simplelog = "0.12"
tempfile = "3"
titlecase = "*"
toml = "*"
unrar = "0.5"
