[package]
name = "deltadefi"
version = "0.1.0"
edition = "2021"
publish = false

[dependencies]
whisky = { version = "=1.0.25", default-features = false, features = ["wallet"] }
serde = { version = "1", features = ["derive"] }
serde_json = "1"
reqwest = { version = "0.12", default-features = false, features = ["json"] }
tokio = { version = "1", default-features = false, features = ["sync", "time", "rt", "macros"] }
tokio-tungstenite = { version = "=0.26.2", default-features = false, features = ["connect"] }
futures-util = { version = "0.3", default-features = false, features = ["sink", "std"] }
rand = "=0.8.8"
