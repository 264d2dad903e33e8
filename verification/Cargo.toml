[package]
name = "corpora_cli"
version = "0.1.0"
edition = "2021"
publish = false

[dependencies]
sha1 = "=0.11.0"
globset = "=0.4.20"
flate2 = "=1.1.10"
tar = "=0.4.46"
serde_json = "=1.0.151"
serde = { version = "=1.0.229", features = ["derive"] }
serde_yaml = "=0.9.34"
clap = { version = "=4.6.7", features = ["derive"] }
console = "=0.16.6"
dialoguer = "=0.12.0"
indicatif = "=0.18.6"
termimad = "=0.35.5"
reqwest = { version = "=0.13.5", default-features = false, features = ["blocking", "json", "form"] }
git2 = { version = "=0.21.0", default-features = false }
tempfile = "=3.27.0"
uuid = { version = "=1.27.0", features = ["v4"] }
base64 = "=0.23.1"
