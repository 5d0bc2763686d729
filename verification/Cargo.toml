[package]
name = "limestudio"
version = "0.1.0"
edition = "2021"
publish = false

[dependencies]
blake3 = { version = "=1.8.7", features = ["pure"] }
ulid = "=1.2.1"
serde = { version = "=1.0.229", features = ["derive"] }
glam = "=0.34.2"
rtrb = "=0.3.6"
once_cell = "=1.21.4"
anyhow = "=1.0.104"
clap = { version = "=4.6.7", features = ["derive"] }
colored = "=2.2.0"
walkdir = "=2.5.0"
toml = "=0.8.23"
syn = { version = "=2.0.119", features = ["full", "visit"] }
uuid = { version = "=1.29.0", features = ["v4", "serde"] }
taffy = "0.3"
