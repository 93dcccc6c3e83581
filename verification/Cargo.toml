[package]
name = "dorothy"
version = "0.1.0"
edition = "2021"
publish = false

[dependencies]
dotenv = "*"
serde = { version = "*", features = ["derive"] }
serde_json = "*"
serenity = "*"
surf = { version = "*", default-features = false, features = ["h1-client"] }
tokio = { version = "*", features = ["macros", "rt-multi-thread"] }
