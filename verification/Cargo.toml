[package]
name = "grocery"
version = "0.1.0"
edition = "2021"
publish = false

[dependencies]
argon2 = "0.5"
password-hash = { version = "0.5", features = ["getrandom"] }
axum = "0.8"
axum-extra = { version = "0.10", features = ["form"] }
base64 = "0.22"
chrono = "0.4"
serde = { version = "1", features = ["derive"] }
sqlx = { version = "0.8", default-features = false, features = ["postgres", "runtime-tokio", "chrono", "migrate", "derive"] }
tera = "1"
tokio = { version = "1", features = ["full"] }
tower = "0.5"
tower-cookies = { version = "0.11", features = ["private"] }
urlencoding = "2"
