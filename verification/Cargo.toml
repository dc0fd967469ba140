[package]
name = "catalog_nav"
version = "0.1.0"
edition = "2021"
publish = false

[dependencies]
crossterm = "0.27"
dotenv = "0.15"
reqwest = { version = "0.12", features = ["json"] }
serde = { version = "1", features = ["derive"] }
serde_json = "1"
tokio = { version = "1", features = ["full"] }
