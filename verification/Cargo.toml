[package]
name = "axum-example"
version = "0.1.0"
edition = "2021"
publish = false

[dependencies]
anyhow = "=1.0.104"
axum = { version = "=0.8.9", features = ["macros"] }
axum-extra = { version = "=0.12.6", features = ["with-rejection"] }
chrono = "=0.4.45"
clap = { version = "=4.6.7", features = ["derive", "env"] }
colored = "=3.1.1"
dashmap = "=6.2.1"
dirs = "=7.0.0"
rand = "=0.8.8"
serde = { version = "=1.0.229", features = ["derive"] }
serde_json = "=1.0.154"
tokio = { version = "=1.54.1", features = ["full"] }
toml = "=1.1.8"
tower = "=0.5.3"
tower-http = { version = "=0.6.11", features = ["timeout", "trace"] }
tracing = "=0.1.44"
tracing-subscriber = { version = "=0.3.23", features = ["env-filter", "json"] }
utoipa = { version = "=6.0.0", features = ["axum_extras"] }
utoipa-rapidoc = { version = "=7.0.0", features = ["axum"] }
utoipa-redoc = { version = "=7.0.0", features = ["axum"] }
utoipa-scalar = { version = "=0.4.0", features = ["axum"] }
utoipa-swagger-ui = { version = "=10.0.2", features = ["axum", "vendored"] }
