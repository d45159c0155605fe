[package]
name = "persistent_gauge"
version = "0.1.0"
edition = "2021"
publish = false

[dependencies]
axum = "0.5"
chrono = { version = "0.4", features = ["serde"] }
diesel = { version = "1.4", features = ["mysql", "r2d2", "chrono"] }
envy = "0.4"
lazy_static = "1.4"
log = "0.4"
opentelemetry = { version = "0.17", features = ["rt-tokio"] }
opentelemetry-http = "0.6"
opentelemetry-jaeger = { version = "0.16", features = ["rt-tokio"] }
opentelemetry-prometheus = "0.10"
prometheus = "0.13"
r2d2 = "0.8"
serde = { version = "1", features = ["derive"] }
slog = "2.7"
slog-async = "2.7"
slog-json = "2.6"
slog-scope = "4.4"
slog-stdlog = "4.1"
tokio = { version = "1", features = ["full"] }
tower = "0.4"
