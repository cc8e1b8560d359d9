[package]
name = "evolia"
version = "0.1.0"
edition = "2021"
publish = false

[dependencies]
rand = "=0.10.3"
nlprule = "=0.6.4"
serde = { version = "=1.0.229", features = ["derive"] }
toml = "=1.1.7"
