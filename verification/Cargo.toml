[package]
name = "pistachio_client"
version = "0.1.0"
edition = "2021"
publish = false

[dependencies]
async-trait = "0.1"
cfg-if = "1"
chrono = "0.4"
prost-types = "0.13"
serde = { version = "1", features = ["derive"] }
serde_json = "1"
tonic = "0.12"
tonic-types = "0.12"
tracing = "0.1"
