[package]
name = "rath_demo"
version = "0.1.0"
edition = "2021"
publish = false

[dependencies]
chrono = "=0.4.45"
argon2 = { version = "=0.5.3", features = ["std"] }
html-minifier = "=6.0.0"
serde = { version = "=1.0.229", features = ["derive"] }
minijinja = { version = "=2.24.0", features = ["loader"] }
axum = "=0.8.9"
axum-htmx = "=0.8.1"
tokio = { version = "=1.54.1", features = ["full"] }
tower = "=0.5.3"
tower-http = { version = "=0.7.1", features = ["fs", "set-header"] }
tower-sessions = "=0.14.0"
tower-sessions-libsql-store = "=0.4.0"
tower_governor = "=0.8.0"
tower-livereload = "=0.10.3"
libsql = "=0.6.0"
dotenv = "=0.15.0"
time = "=0.3.55"
actix-web = { version = "=4.18.1", default-features = false }
