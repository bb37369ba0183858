[package]
name = "fennec"
version = "0.1.0"
edition = "2021"
publish = false

[dependencies]
itertools = "=0.15.0"
chrono = "=0.4.45"
md5 = "=0.8.1"
url = "=2.5.8"
serde = { version = "=1.0.229", features = ["derive"] }
serde_json = "=1.0.154"
serde_qs = "=1.1.3"
comfy-table = "=8.0.1"
clap = { version = "=4.6.7", features = ["derive", "env"] }
anyhow = "=1.0.104"
derive_more = { version = "=2.1.1", features = ["from_str"] }
tokio = { version = "=1.54.1", features = ["rt", "time", "macros", "net", "sync"] }
reqwest = { version = "=0.13.5", default-features = false, features = ["json"] }
tokio-modbus = { version = "*", default-features = false, features = ["tcp"] }
