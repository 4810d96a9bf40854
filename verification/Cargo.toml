[package]
name = "oidc_session"
version = "0.1.0"
edition = "2021"
publish = false

[dependencies]
cookie = { version = "=0.18.2", features = ["private", "key-expansion"] }
rand = "=0.8.8"
base64 = "=0.22.1"
axum = "=0.7.9"
tokio = { version = "=1.53.2", features = ["rt-multi-thread", "macros", "net"] }
tower-cookies = "=0.10.0"
serde = { version = "=1.0.229", features = ["derive"] }
serde_json = "=1.0.151"
openidconnect = "=3.5.0"
