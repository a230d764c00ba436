[package]
name = "ticketing"
version = "0.1.0"
edition = "2021"
publish = false

[dependencies]
async-trait = "=0.1.92"
chrono = { version = "=0.4.45", features = ["serde"] }
rand = "=0.10.3"
reqwest = { version = "=0.13.5", features = ["json"] }
rust_decimal = "=1.43.0"
serde = { version = "=1.0.229", features = ["derive"] }
uuid = { version = "=1.27.0", features = ["v4"] }
