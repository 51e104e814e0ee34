[package]
name = "pion"
version = "0.1.0"
edition = "2021"
publish = false

[dependencies]
anyhow = "=1.0.104"
async-trait = "=0.1.92"
clap = { version = "=4.6.7", features = ["derive"] }
metrics = "=0.24.6"
reqwest = { version = "0.12", default-features = false, features = ["json"] }
serde = { version = "=1.0.229", features = ["derive"] }
serde_json = "=1.0.154"
sha2 = "=0.10.9"
subtle = "=2.6.1"
thiserror = "=2.0.21"
tokio = { version = "1", features = ["rt"] }
