[package]
name = "aws_resource_id"
version = "0.1.0"
edition = "2021"
publish = false

[dependencies]
serde = "1"
sqlx = { version = "0.8", default-features = false, features = ["postgres"] }
thiserror = "2"
