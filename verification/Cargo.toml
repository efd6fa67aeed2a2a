[package]
name = "ponzu_back"
version = "0.1.0"
edition = "2021"
publish = false

[dependencies]
actix-web = "*"
colored = "*"
dotenv = "*"
futures = "*"
mongodb = "*"
serde = { version = "*", features = ["derive"] }
serde_json = "*"
