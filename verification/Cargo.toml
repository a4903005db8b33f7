[package]
name = "openfga"
version = "0.1.0"
edition = "2021"
publish = false

[dependencies]
serde_json = "=1.0.154"
url = "=2.5.8"
reqwest = { version = "=0.12.28", default-features = false, features = ["json"] }
serde = { version = "=1.0.229", features = ["derive"] }
thiserror = "=1.0.69"
miette = "=7.6.0"
axum = "=0.7.9"
async-trait = "=0.1.92"
loco-rs = { version = "=0.4.0", default-features = false, features = ["cli"] }
