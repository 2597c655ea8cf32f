[package]
name = "rusty_exercise"
version = "0.1.0"
edition = "2021"
publish = false

[dependencies]
actix = "0.13"
actix-session = { version = "0.9", features = ["cookie-session"] }
actix-web = { version = "4", default-features = false, features = ["macros", "cookies", "secure-cookies"] }
anyhow = "1"
argon2 = "0.5"
chrono = "0.4"
config = { version = "0.14", default-features = false, features = ["toml"] }
diesel = { version = "2", features = ["postgres", "r2d2", "uuid", "chrono"] }
dotenvy = "0.15"
envy = "0.4"
r2d2 = "0.8"
rand = "0.8"
secrecy = { version = "0.8", features = ["serde"] }
serde = { version = "1", features = ["derive"] }
serde_json = "1"
thiserror = "1"
tokio = { version = "1", features = ["rt", "macros"] }
tracing = "0.1"
tracing-actix-web = "0.7"
unicode-segmentation = "1"
uuid = { version = "1", features = ["v4", "serde"] }
validator = "0.18"
