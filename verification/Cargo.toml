[package]
name = "toml_body"
version = "0.1.0"
edition = "2021"
publish = false

[dependencies]
toml = "0.8"
serde = "1"
thiserror = "1"
axum = "0.6"
