[package]
name = "weather_server_lib"
version = "0.1.0"
edition = "2021"
publish = false

[dependencies]
anyhow = "=1.0.104"
argon2 = "=0.5.3"
chrono = "=0.4.45"
email_address = "=0.2.9"
jsonwebtoken = "=9.3.1"
poem = "=3.1.12"
poem-openapi = { version = "=5.1.16", features = ["swagger-ui"] }
rand = "=0.8.8"
reqwest = { version = "=0.12.28", default-features = false, features = ["json", "rustls-tls"] }
serde = { version = "=1.0.229", features = ["derive"] }
# The claims of a token are read as a JSON value and its two numbers picked
# from it: the library's own types carry no derive of serde.
serde_json = "=1.0.154"
sqlx = { version = "=0.8.6", default-features = false, features = ["sqlite", "runtime-tokio", "migrate"] }
thiserror = "=1.0.69"
tokio = { version = "=1.54.1", features = ["rt-multi-thread", "macros"] }
toml = "=0.8.23"
tracing-subscriber = "=0.3.23"
