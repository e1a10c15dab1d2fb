[package]
name = "jointhedots"
version = "0.1.0"
edition = "2021"
publish = false

[dependencies]
clap = { version = "3.2", features = ["derive"] }
console = "*"
dialoguer = "*"
git2 = "*"
git2_credentials = "*"
hex = "0.4"
serde = { version = "1", features = ["derive"] }
serde_yaml = "*"
sha1 = "0.10"
shellexpand = "*"
tempfile = "*"
