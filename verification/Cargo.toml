[package]
name = "vm_monitor"
version = "0.1.0"
edition = "2021"
publish = false

[dependencies]
chrono = "*"
confy = "*"
dirs = "*"
reqwest = { version = "*", default-features = false }
serde = { version = "*", features = ["derive"] }
serde_json = "*"
tokio = { version = "*", features = ["macros", "rt"] }
