[package]
name = "squid_dashboard"
version = "0.1.0"
edition = "2021"
publish = false

[dependencies]
regex = "1"
serde = { version = "1", features = ["derive"] }
serde_json = "1"
bson = "2"
rocket = { version = "0.5", features = ["json", "secrets"] }
rocket_db_pools = { version = "0.2", features = ["deadpool_redis"] }
oauth2 = { version = "4", default-features = false, features = ["reqwest", "rustls-tls"] }
twilight-http = { version = "0.15", default-features = false, features = ["rustls-webpki-roots"] }
twilight-model = "0.15"
twilight-validate = "0.15"
dotenv = "0.15"
lazy_static = "1"
