[package]
name = "julie-vic-wedding"
version = "0.1.0"
edition = "2021"
publish = false

[dependencies]
anyhow = "1"
chrono = { version = "0.4", features = ["serde"] }
clap = "2"
diesel = { version = "1.4", features = ["postgres", "uuidv07", "chrono", "r2d2"] }
dotenv = "0.15"
env_logger = "0.7"
futures = "0.1"
http = "0.1"
jsonwebtoken = "8"
oauth2 = { version = "4", default-features = false }
hyper = "0.12"
log = "0.4"
mime = "0.3"
openssl-probe = "0.1"
r2d2 = "0.8"
rand = "0.7"
reqwest = "0.9"
serde = { version = "1", features = ["derive"] }
serde_derive = "1"
serde_json = { version = "1", features = ["raw_value"] }
thiserror = "1"
url = "2"
uuid = { version = "0.7", features = ["v4", "serde"] }
