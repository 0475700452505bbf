[package]
name = "auction_settlement"
version = "0.1.0"
edition = "2021"
publish = false

[dependencies]
chrono = "*"
sea-orm = { version = "*", default-features = false, features = ["sqlx-postgres", "runtime-tokio-rustls", "macros", "with-rust_decimal", "with-chrono"] }
tokio = { version = "*", default-features = false, features = ["rt-multi-thread", "macros", "time"] }
reqwest = { version = "*", default-features = false, features = ["json", "rustls-tls"] }
serde_json = "*"
rust_decimal = "*"
dotenv = "*"

[dev-dependencies]
regex = "*"
