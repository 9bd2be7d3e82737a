[package]
name = "choir"
version = "0.1.0"
edition = "2021"
publish = false

[dependencies]
actix-web = "=4.18.1"
async-openai = "=0.28.3"
async-trait = "=0.1.92"
chrono = "=0.4.45"
dotenv = "=0.15.0"
env_logger = "=0.11.11"
firecrawl = "1"
futures = "=0.3.34"
log = "=0.4.34"
regex = "=1.13.1"
schemars = "=1.2.3"
serde = { version = "=1.0.229", features = ["derive"] }
serde_json = "=1.0.154"
tokio = { version = "=1.54.1", features = ["sync", "macros", "rt-multi-thread"] }
urlencoding = "=2.1.3"
uuid = "=1.29.0"
