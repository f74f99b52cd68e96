[package]
name = "mediascraper"
version = "0.1.0"
edition = "2021"
publish = false

[dependencies]
regex = "1.10"
scraper = { version = "0.18", default-features = false }
serde_json = "1.0"
reqwest = { version = "0.11", default-features = false, features = ["json", "blocking", "rustls-tls"] }
actix-web = { version = "4", default-features = false, features = ["macros"] }
actix-cors = "0.7"
actix-files = "0.6"
tera = { version = "1.19", default-features = false }
