[package]
name = "pay_worker"
version = "0.1.0"
edition = "2021"
publish = false

[dependencies]
axum = { version = "0.7", default-features = false, features = ["json", "macros", "query"] }
reqwest = { version = "0.12", default-features = false, features = ["json"] }
serde = { version = "1", features = ["derive"] }
graphql_client = { version = "0.14", default-features = false }
tower-http = { version = "0.5", features = ["cors"] }
tower-service = "0.3"
tracing = "0.1"
tracing-subscriber = { version = "0.3", features = ["env-filter", "json", "time"] }
tracing-web = "0.1"
console_error_panic_hook = "0.1"
axum-wasm-macros = "0.1"
worker = { version = "0.4", features = ["http"] }
