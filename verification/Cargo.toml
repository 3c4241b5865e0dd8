[package]
name = "dap_reactor"
version = "0.1.0"
edition = "2021"
publish = false

[dependencies]
serde_json = { version = "1", features = ["preserve_order"] }
tokio = { version = "1", features = ["full"] }
async-trait = "0.1"
bytes = "1"
