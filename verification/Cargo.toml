[package]
name = "authcore"
version = "0.1.0"
edition = "2021"
publish = false

[dependencies]
argon2 = "*"
urlencoding = "*"
actix-web = "4"
actix-session = { version = "*", features = ["cookie-session"] }
actix-files = "*"
diesel = { version = "2", features = ["sqlite", "r2d2"] }
libsqlite3-sys = { version = "*", features = ["bundled"] }
serde = { version = "1", features = ["derive"] }
serde_json = "1"
tera = "1"
futures-util = "0.3"
