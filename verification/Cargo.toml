[package]
name = "pagination"
version = "0.1.0"
edition = "2021"
publish = false

[dependencies]
axum = "*"
bb8 = "*"
diesel = { version = "*", features = ["mysql_backend"] }
diesel-async = { version = "*", features = ["mysql", "bb8"] }
serde = { version = "*", features = ["derive"] }
tokio = { version = "*", features = ["macros", "rt-multi-thread", "net"] }
