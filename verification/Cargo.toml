[package]
name = "xcodebase"
version = "0.1.0"
edition = "2021"
publish = false

[dependencies]
anyhow = "*"
async-trait = "*"
simctl = "*"
tokio = { version = "*", features = ["full"] }
tokio-stream = "*"
tracing = "*"
xcodebuild = "*"
