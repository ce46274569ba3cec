[package]
name = "table_comment"
version = "0.1.0"
edition = "2021"
publish = false

[dependencies]
anyhow = "=1.0.104"
diesel = { version = "=2.3.14", features = ["postgres"] }
