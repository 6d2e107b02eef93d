[package]
name = "clbar"
version = "0.1.0"
edition = "2021"
publish = false

[dependencies]
anyhow = "1"
dirs = "5"
gtk = "0.18"
image = { version = "0.25", default-features = false, features = ["png"] }
indexmap = { version = "2", features = ["serde"] }
notify-rust = "4"
reqwest = { version = "0.12", default-features = false, features = ["json"] }
serde = { version = "1", features = ["derive"] }
tokio = { version = "1", features = ["macros", "rt-multi-thread", "time"] }
toml = "0.8"
tray-icon = "*"
