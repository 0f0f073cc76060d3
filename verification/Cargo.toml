[package]
name = "photo_backend"
version = "0.1.0"
edition = "2021"
publish = false

[dependencies]
jsonwebtoken = "=9.3.1"
bcrypt = "=0.19.3"
chrono = { version = "=0.4.45", default-features = false, features = ["now"] }
serde = { version = "=1.0.229", features = ["derive"] }
serde_json = { version = "=1.0.154", features = ["raw_value"] }
dotenv = "=0.15.0"
uuid = { version = "=1.29.1", features = ["v4"] }
futures = "=0.3.34"
actix-web = { version = "=4.18.1", default-features = false, features = ["macros"] }
actix-multipart = { version = "=0.8.5", default-features = false }
rust-s3 = { version = "=0.38.0", default-features = false, features = ["fail-on-err", "tokio-rustls-tls-ring"] }
surrealdb = { version = "=3.3.5", default-features = false, features = ["protocol-ws"] }
