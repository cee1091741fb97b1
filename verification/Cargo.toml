[package]
name = "flash_sessions"
version = "0.1.0"
edition = "2021"
publish = false

[dependencies]
serde_json = "=1.0.154"
uuid = { version = "=1.29.0", features = ["v4"] }
serde = { version = "=1.0.229", features = ["derive"] }
actix-web = { version = "=4.18.1", default-features = false, features = ["macros", "cookies"] }
actix-files = "=0.6.10"
handlebars = { version = "=6.4.4", features = ["dir_source"] }
futures-util = "=0.3.34"
anyhow = "=1.0.104"
