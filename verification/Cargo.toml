[package]
name = "zero2prod"
version = "0.1.0"
edition = "2021"
publish = false

[dependencies]
reqwest = { version = "=0.13.5", default-features = false, features = ["blocking"] }
lettre = { version = "=0.11.23", default-features = false, features = ["smtp-transport", "builder", "rustls-tls"] }
config = "=0.15.27"
serde = { version = "=1.0.229", features = ["derive"] }
serde-aux = "=4.7.0"

[dev-dependencies]
httpmock = "=0.8.3"
rayon = "=1.12.0"
serde_json = "=1.0.151"
