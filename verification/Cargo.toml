[package]
name = "aqi"
version = "0.1.0"
edition = "2021"
publish = false

[dependencies]
owo-colors = "3"
reqwest = { version = "0.11", features = ["json"] }
serde = { version = "1", features = ["derive"] }
serde_json = "1"
structopt = "0.3"
tokio = { version = "1", features = ["macros", "rt-multi-thread"] }
