[package]
name = "oauth_login"
version = "0.1.0"
edition = "2021"
publish = false

[dependencies]
uuid = { version = "*", features = ["v4"] }
actix-web = "*"
reqwest = { version = "*", default-features = false, features = ["json"] }
tera = "*"
serde = { version = "*", features = ["derive"] }
log = "*"
