[package]
name = "listas"
version = "0.1.0"
edition = "2021"
publish = false

[dependencies]
chrono = "=0.4.45"
rand = "=0.8.8"
url = "=2.5.8"
slug = "=0.1.6"
Inflector = "=0.11.4"
bcrypt = "=0.19.3"
select = "=0.6.1"
validator = "=0.16.1"
serde = { version = "=1.0.229", features = ["derive"] }
serde_json = "=1.0.154"
jsonwebtoken = { version = "=11.1.0", default-features = false }
reqwest = { version = "=0.12.28", default-features = false, features = ["json", "rustls-tls"] }
actix-web = { version = "=4.18.1", default-features = false, features = ["macros"] }
bincode = "=1.3.3"
serde_qs = "=1.1.3"
maud = "=0.27.0"
wither = "=0.9.0"
futures = "=0.3.34"
