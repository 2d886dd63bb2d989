[package]
name = "identity_store"
version = "0.1.0"
edition = "2021"
publish = false

[dependencies]
actix-web = "*"
async-trait = "*"
ruma-identifiers = "*"
serde = { version = "*", features = ["derive"] }
serde_json = "*"
sqlx = { version = "*", default-features = false, features = ["postgres", "runtime-tokio", "macros"] }
