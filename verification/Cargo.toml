[package]
name = "ranklab"
version = "0.1.0"
edition = "2021"
publish = false

[dependencies]
smol_str = "=0.2.2"
hmac = "=0.12.1"
sha2 = "=0.10.9"
hex = "=0.4.3"
bcrypt = "=0.14.0"
slugify = "=0.1.0"
ammonia = "=3.3.4"
validator = "=0.16.1"
rand = "=0.8.8"
uuid = { version = "=1.29.0", features = ["v4"] }
serde = { version = "=1.0.229", features = ["derive"] }
serde_json = "=1.0.154"
reqwest = { version = "=0.11.27", default-features = false, features = ["json", "rustls-tls"] }
chrono = "=0.4.45"
schemars = "=0.8.22"
thiserror = "=1.0.69"
anyhow = "=1.0.104"
rusoto_core = { version = "0.48", default-features = false, features = ["rustls"] }
rusoto_credential = "0.48"
rusoto_s3 = { version = "0.48", default-features = false, features = ["rustls"] }
