[package]
name = "restaurant_service"
version = "0.1.0"
edition = "2021"
publish = false

[dependencies]
md5 = "0.7"
password-auth = "1"
uuid = { version = "1", features = ["v4"] }
serde = { version = "1", features = ["derive"] }
axum = "0.6"
axum-login = "0.7"
tower-sessions = "0.4"
tower = "0.4"
time = "0.3"
diesel = { version = "2.1", default-features = false, features = ["postgres_backend", "chrono"] }
diesel-async = { version = "0.4", features = ["postgres", "bb8"] }
reqwest = { version = "0.11", default-features = false, features = ["json", "rustls-tls"] }
chrono = { version = "0.4", features = ["serde"] }
tracing = "0.1"
