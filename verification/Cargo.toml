[package]
name = "curcat"
version = "0.1.0"
edition = "2021"
publish = false

[dependencies]
anyhow = "=1.0.104"
arboard = "3"
chrono = "=0.4.45"
csv = "=1.4.0"
directories = "=5.0.1"
image = "=0.25.10"
resvg = "=0.45.1"
ron = "=0.8.1"
rust_xlsxwriter = "=0.79.4"
serde = { version = "=1.0.229", features = ["derive"] }
serde_json = "=1.0.154"
toml = "=0.8.23"
