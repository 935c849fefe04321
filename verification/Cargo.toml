[package]
name = "workflow_core"
version = "0.1.0"
edition = "2021"
publish = false

[dependencies]
async-std = "1"
manual_future = "0.1"
triggered = "0.1"
tokio = { version = "1", features = ["rt"] }
futures = "0.3"
thiserror = "1"
instant = "0.1"
