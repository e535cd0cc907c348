[package]
name = "todos"
version = "0.1.0"
edition = "2021"
publish = false

[dependencies]
directories = "*"
i18n-embed = { version = "*", features = ["fluent-system", "desktop-requester"] }
i18n-embed-fl = "*"
iced = { version = "0.14", default-features = false, features = ["tiny-skia", "tokio", "x11"] }
rodio = "0.21"
rust-embed = "*"
serde = { version = "1", features = ["derive"] }
serde_json = "1"
sqlx = { version = "0.8", default-features = false, features = ["sqlite", "runtime-tokio"] }
tokio = { version = "1", features = ["fs", "time"] }
tracing-subscriber = "*"
uuid = { version = "1", features = ["v4", "serde"] }
