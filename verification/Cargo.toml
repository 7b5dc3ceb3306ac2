[package]
name = "request_intake"
version = "0.1.0"
edition = "2021"
publish = false

[dependencies]
actix-web = { version = "4", default-features = false, features = ["macros"] }
actix-multipart = { version = "0.7" }
tokio = { version = "1", features = ["fs", "io-util"] }
serde = { version = "1", features = ["derive"] }
serde_json = { version = "1" }
derive_more = { version = "2", features = ["display", "error"] }
