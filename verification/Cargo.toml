[package]
name = "lapsus"
version = "0.1.0"
edition = "2021"
publish = false

[dependencies]
cidre = "*"
objc2 = "0.6"
objc2-foundation = "0.3"
objc2-app-kit = "0.3"
objc2-core-foundation = "0.3"
objc2-service-management = "0.3"
block2 = "0.6"
serde = { version = "1", features = ["derive"] }
toml = "*"
log = "0.4"
env_logger = "*"
