[package]
name = "rocs"
version = "0.2.0"
edition = "2021"
publish = false

[dependencies]
uuid = { version = "*", features = ["v4"] }
rocl = "*"
tokio = { version = "*", features = ["macros", "rt-multi-thread"] }
clap = "3"
prettytable-rs = "*"
rusqlite = { version = "*", features = ["bundled"] }
chrono = "*"
dirs = "*"
serde = { version = "*", features = ["derive"] }
serde_json = "*"
