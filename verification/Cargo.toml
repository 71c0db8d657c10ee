[package]
name = "verusnft"
version = "0.1.0"
edition = "2021"
publish = false

[dependencies]
base64-url = "=1.4.13"
color-eyre = "0.6"
config = { version = "0.13", default-features = false, features = ["toml"] }
derive_more = "0.99"
gql_client = "1"
hex = "=0.4.3"
indexmap = { version = "=1.9.3", features = ["serde"] }
rand = "=0.8.8"
rand_pcg = "=0.3.1"
reqwest = { version = "=0.11.27", default-features = false, features = ["json"] }
secrecy = "0.8"
serde = { version = "1", features = ["derive"] }
serde-aux = "4"
serde_json = "=1.0.154"
serenity = { version = "0.11", default-features = false, features = ["builder", "cache", "client", "framework", "gateway", "http", "model", "standard_framework", "utils", "rustls_backend"] }
sqlx = { version = "0.6", default-features = false, features = ["runtime-tokio-rustls", "postgres", "migrate"] }
tokio = { version = "1", features = ["macros", "rt-multi-thread", "time"] }
tracing = "0.1"
tracing-subscriber = { version = "0.3", features = ["env-filter"] }
url = "2"
uuid = { version = "1", features = ["v4"] }
vrsc-rpc = "*"
