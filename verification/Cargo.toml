[package]
name = "expense_tracker"
version = "0.1.0"
edition = "2021"
publish = false

[dependencies]
actix-web = { version = "4", default-features = false, features = ["macros", "cookies"] }
anyhow = "1"
bcrypt = "*"
chrono = { version = "0.4", features = ["serde"] }
dotenv = "0.15"
jsonwebtoken = "9"
redis = { version = "*", features = ["tokio-comp"] }
rust_decimal = "1"
serde = { version = "1", features = ["derive"] }
serde_json = "1"
sqlx = { version = "0.8", default-features = false, features = ["postgres", "runtime-tokio", "derive", "macros", "uuid", "chrono", "rust_decimal"] }
thiserror = "*"
tracing = "0.1"
tracing-actix-web = "*"
tracing-subscriber = { version = "0.3", features = ["env-filter"] }
uuid = { version = "1", features = ["v4", "serde"] }
validator = "*"
zxcvbn = "*"
