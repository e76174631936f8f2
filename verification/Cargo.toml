[package]
name = "grug_app"
version = "0.1.0"
edition = "2021"
publish = false

[dependencies]
base64 = "0.21"
informalsystems-malachitebft-core-types = "=0.1.0"
informalsystems-malachitebft-config = "=0.1.0"
async-trait = "0.1"
eyre = "0.6"
rand = "0.8"
serde = { version = "1", features = ["derive"] }
serde_json = "1"
tokio = "1"
