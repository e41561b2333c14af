[package]
name = "file_intake"
version = "0.1.0"
edition = "2021"
publish = false

[dependencies]
blake3 = "1"
bytes = "1"
dashmap = "5"
mime_guess = "2"
sanitize-filename = "*"
uuid = { version = "1", features = ["v4"] }
actix-web = { version = "4", default-features = false, features = ["macros"] }
actix-multipart = "0.6"
futures-util = "0.3"
tokio = { version = "1", features = ["fs", "io-util"] }
serde = { version = "1", features = ["derive"] }
derive_more = "0.99"
meilisearch-sdk = "*"
