[package]
name = "automation_bridge"
version = "0.1.0"
edition = "2021"
publish = false

[dependencies]
config = { version = "0.11", default-features = false, features = ["toml"] }
mdns-sd = "*"
reqwest = { version = "0.11", default-features = false, features = ["json"] }
serde = { version = "1", features = ["derive"] }
serenity = "0.11"
tokio = { version = "1", features = ["macros", "rt-multi-thread"] }
