[package]
name = "twilio_rs"
version = "0.1.0"
edition = "2021"
publish = false

[dependencies]
axum = { version = "0.6", features = ["ws"] }
base64 = "=0.21.7"
dotenvy = "0.15"
futures-util = "0.3"
http = "0.2"
hyper = { version = "0.14", features = ["client", "http1", "http2"] }
hyper-rustls = { version = "0.24", features = ["http2"] }
reqwest = { version = "0.11", default-features = false, features = ["json", "stream", "rustls-tls"] }
serde = { version = "1", features = ["derive"] }
serde_json = "1"
serde_urlencoded = "0.7"
sqlx = { version = "0.7", default-features = false, features = ["postgres", "runtime-tokio", "tls-rustls", "uuid", "time"] }
tokio = { version = "1", features = ["macros", "rt-multi-thread", "sync", "time", "net"] }
tokio-tungstenite = { version = "0.20", features = ["rustls-tls-native-roots"] }
tracing = "0.1"
tracing-subscriber = "0.3"
uuid = { version = "=1.29.0", features = ["serde"] }
xmlserde = "=0.14.0"
xmlserde_derives = "=0.14.0"
yup-oauth2 = "8"
