[package]
name = "clipvault"
version = "0.1.0"
edition = "2021"
publish = false

[dependencies]
url = "=2.5.8"
base64 = "=0.22.1"
image = { version = "=0.25.10", default-features = false, features = ["png"] }
serde_json = "=1.0.154"
serde = { version = "=1.0.229", features = ["derive"] }
thiserror = "=1.0.69"
rusqlite = "=0.40.2"
arboard = "=3.7.0"
enigo = "=0.6.1"
async-openai = "=0.29.6"
