[package]
name = "htmx_todo"
version = "0.1.0"
edition = "2021"
publish = false

[dependencies]
axum = { version = "0.6", features = ["headers"] }
headers = "0.3"
html-to-string-macro = "*"
rocket = { version = "0.5", default-features = false }
serde = { version = "1", features = ["derive"] }
strum = { version = "0.24", features = ["derive"] }
tokio = { version = "1", features = ["macros", "rt-multi-thread"] }
tracing-subscriber = "0.3"
