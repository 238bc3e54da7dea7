[package]
name = "damq_backend"
version = "0.1.0"
edition = "2021"
publish = false

[dependencies]
serde_json = "1"
serde = { version = "1", features = ["derive"] }
actix-web = { version = "4", default-features = false, features = ["macros"] }
reqwest = { version = "0.12", default-features = false, features = ["json"] }
dotenv = "0.15"
