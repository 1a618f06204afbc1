[package]
name = "fff"
version = "0.1.0"
edition = "2021"
publish = false

[dependencies]
sql_query_builder = { version = "=2.7.2", features = ["postgresql"] }
anyhow = "=1.0.104"
arrow = { version = "=58.4.0", features = ["prettyprint"] }
async-openai = { version = "=0.42.2", features = ["chat-completion"] }
async-stream = "=0.3.6"
axum = { version = "=0.7.9", features = ["macros"] }
clap = { version = "=4.6.7", features = ["derive"] }
futures = "=0.3.34"
serde = { version = "=1.0.229", features = ["derive"] }
serde_json = "=1.0.154"
spiceai = "=4.0.0"
thiserror = "=2.0.21"
tokio = { version = "=1.54.1", features = ["macros", "rt-multi-thread", "sync", "net"] }
tower-http = { version = "=0.6.11", features = ["catch-panic", "compression-full", "cors", "sensitive-headers", "timeout", "trace"] }
tracing = "=0.1.44"
tracing-subscriber = "=0.3.23"
url = { version = "=2.5.8", features = ["serde"] }
