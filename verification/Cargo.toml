[package]
name = "master_data"
version = "0.1.0"
edition = "2021"
publish = false

[dependencies]
async-trait = "*"
serde = { version = "*", features = ["derive"] }
sqlx = { version = "*", default-features = false, features = ["sqlite", "runtime-tokio"] }
time = "*"
tokio = { version = "*", default-features = false, features = ["rt"] }
