[package]
name = "oidc_provider"
version = "0.1.0"
edition = "2021"
publish = false

[dependencies]
actix-files = "0.6"
actix-http = "3"
actix-session = { version = "0.7", features = ["cookie-session"] }
actix-web = { version = "4", features = ["openssl"] }
base64 = "0.21"
chrono = "0.4"
crypto-hash = "0.3"
diesel = { version = "1.4", features = ["sqlite", "r2d2", "chrono"] }
dotenv = "0.15"
env_logger = "0.10"
jsonwebtoken = "8"
log = "0.4"
openssl = "0.10"
r2d2 = "0.8"
rand = "0.8"
serde = { version = "1", features = ["derive"] }
serde_json = "1"
tera = "1"
url = "2"
