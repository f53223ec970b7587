[package]
name = "api"
version = "0.1.0"
edition = "2021"
publish = false

[dependencies]
actix-web = "4"
actix-identity = "0.6"
actix-session = { version = "0.8", features = ["cookie-session"] }
actix-service = "2"
futures = "0.3"
oauth2 = "4"
reqwest = { version = "0.11", default-features = false, features = ["rustls-tls"] }
serde = { version = "1", features = ["derive"] }
serde_json = "1"
strum = { version = "0.25", features = ["derive"] }
diesel = { version = "2", default-features = false, features = ["postgres", "r2d2"] }
r2d2 = "0.8"
dotenvy = "0.15"
thiserror = "1"
uuid = "1"
