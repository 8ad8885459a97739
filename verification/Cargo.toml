[package]
name = "book_manager"
version = "0.1.0"
edition = "2021"
publish = false

[dependencies]
async-trait = "=0.1.92"
axum = "=0.8.9"
chrono = { version = "=0.4.45", features = ["serde"] }
derive-new = "=0.7.0"
garde = { version = "=0.23.0", features = ["derive", "email"] }
serde = { version = "=1.0.229", features = ["derive"] }
sqlx = { version = "=0.9.0", default-features = false, features = ["runtime-tokio", "postgres", "uuid", "chrono", "macros"] }
strum = { version = "=0.28.0", features = ["derive"] }
tokio = { version = "=1.54.1", features = ["rt-multi-thread", "macros", "net"] }
tracing = "=0.1.44"
utoipa = { version = "=6.0.0", features = ["axum_extras", "uuid", "chrono"] }
uuid = { version = "=1.29.0", features = ["v4", "serde"] }
