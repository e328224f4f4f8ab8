[package]
name = "rustwx_products"
version = "0.1.0"
edition = "2021"
publish = false

[dependencies]
rayon = "1.12"
serde = { version = "1", features = ["derive"] }
