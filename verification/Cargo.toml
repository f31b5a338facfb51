[package]
name = "lightsync"
version = "0.1.0"
edition = "2021"
publish = false

[dependencies]
btleplug = "*"
scrap = "*"
serde = { version = "*", features = ["derive"] }
tokio = { version = "*", features = ["macros", "rt-multi-thread", "time"] }
toml = "*"
uuid = "*"
