[package]
name = "message_service"
version = "0.1.0"
edition = "2021"
publish = false

[dependencies]
actix-web = { version = "4", default-features = false, features = ["macros"] }
actix-web-httpauth = "0.8"
derive_more = "0.99"
diesel = { version = "2", default-features = false, features = ["postgres", "r2d2", "uuid"] }
dotenvy = "0.15"
r2d2 = "0.8"
serde = { version = "1", features = ["derive"] }
strum_macros = "*"
uuid = { version = "1", features = ["serde"] }
