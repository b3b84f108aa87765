[package]
name = "product_stalker"
version = "0.1.0"
edition = "2021"
publish = false

[dependencies]
rust_decimal = "1"
url = "2"
scraper = "*"
serde = { version = "1", features = ["derive"] }
serde_json = "1"
chrono = "0.4"
thiserror = "*"
reqwest = { version = "*", default-features = false, features = ["json"] }
tokio = { version = "1", features = ["rt", "macros", "time"] }
