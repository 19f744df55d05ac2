[package]
name = "ripalt"
version = "0.1.0"
edition = "2021"
publish = false

[dependencies]
uuid = { version = "1", features = ["v4", "serde"] }
jsonwebtoken = "9"
actix-web = "4"
serde = { version = "1", features = ["derive"] }
diesel = { version = "2", features = ["postgres", "uuid"] }
tera = "1"
