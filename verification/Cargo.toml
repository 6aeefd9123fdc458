[package]
name = "csv_rag"
version = "0.1.0"
edition = "2021"
publish = false

[dependencies]
anyhow = "=1.0.104"
async-openai = "=0.23.4"
dotenv = "=0.15.0"
qdrant-client = "=1.20.0"
serde = { version = "=1.0.229", features = ["derive"] }
serde_json = "=1.0.154"
tokio = { version = "=1.54.1", features = ["macros", "rt-multi-thread", "time"] }
tonic = "=0.14.6"
uuid = { version = "=1.29.0", features = ["v4"] }
