[package]
name = "tf2_terminal"
version = "0.1.0"
edition = "2021"
publish = false

[dependencies]
csv = "=1.4.0"
url = "=2.5.8"
rust_xlsxwriter = "=0.102.0"
serde = { version = "=1.0.229", features = ["derive"] }
serde_json = "=1.0.154"
toml = "=1.1.8"
dirs = "=7.0.0"
sqlx = { version = "=0.8.6", default-features = false, features = ["sqlite", "runtime-tokio", "macros", "migrate"] }
reqwest = { version = "=0.12.28", default-features = false, features = ["json", "rustls-tls"] }
tokio = { version = "=1.54.1", features = ["rt-multi-thread", "macros", "time", "sync"] }
governor = "=0.10.4"
tracing = "=0.1.44"
futures-util = "=0.3.34"
tokio-tungstenite = { version = "=0.30.0", features = ["rustls-tls-webpki-roots"] }
tiny_http = "=0.12.0"
open = "=5.4.5"
keyring-core = "=1.0.1"
printpdf = { version = "=0.12.8", default-features = false }
linux-keyutils-keyring-store = "=1.0.0"
zbus-secret-service-keyring-store = { version = "=1.0.1", features = ["rt-tokio-crypto-rust"] }
