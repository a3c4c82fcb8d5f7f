[package]
name = "storefront"
version = "0.1.0"
edition = "2021"
publish = false

[dependencies]
anyhow = "=1.0.104"
serde = { version = "1", features = ["derive"] }
yew = { version = "=0.17.4", features = ["web_sys"] }
