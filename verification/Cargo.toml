[package]
name = "expenses_splitter"
version = "0.1.0"
edition = "2021"
publish = false

[dependencies]
bcrypt = "=0.15.1"
axum = "=0.8.9"
axum_session = "=0.22.0"
axum_session_auth = "=0.22.0"
axum_session_sqlx = { version = "=0.12.0", default-features = false, features = ["sqlite"] }
leptos = { version = "=0.8.22", features = ["ssr"] }
leptos_axum = "=0.8.10"
leptos_router = { version = "=0.8.17", features = ["ssr"] }
sqlx = { version = "=0.9.0", features = ["sqlite", "runtime-tokio"] }
tokio = { version = "=1.54.1", features = ["rt-multi-thread", "macros"] }
log = "=0.4.34"
simple_logger = "=5.2.0"
serde = { version = "=1.0.229", features = ["derive"] }
async-trait = "=0.1.92"
anyhow = "1"
