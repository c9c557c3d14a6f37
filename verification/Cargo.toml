[package]
name = "fancontrol"
version = "0.1.0"
edition = "2021"
publish = false

[dependencies]
tokio = { version = "1", features = ["sync", "time", "macros", "rt"] }
serde = { version = "1", features = ["derive"] }
serde_json = "1"
sysinfo = { version = "0.37", default-features = false, features = ["system"] }
async-trait = "0.1"
