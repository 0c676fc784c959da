[package]
name = "api"
version = "0.1.0"
edition = "2021"
publish = false

[dependencies]
async-trait = "*"
dotenv = "*"
futures = "*"
futures-core = "*"
reqwest = { version = "*", default-features = false, features = ["json"] }
serde = { version = "*", features = ["derive"] }
tokio = { version = "*", features = ["net", "rt", "macros", "time"] }
tokio-tungstenite = "*"
