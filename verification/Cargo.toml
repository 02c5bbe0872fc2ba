[package]
name = "ultiserve"
version = "0.1.0"
edition = "2021"
publish = false

[dependencies]
anyhow = "=1.0.104"
comrak = "=0.44.0"
crossterm = "=0.29.0"
env_logger = "=0.11.11"
serde = { version = "=1.0.229", features = ["derive"] }
structopt = "=0.3.26"
syntect = "=5.3.0"
tera = "=2.4.0"
tokio = { version = "=1.53.2", features = ["full"] }
warp = { version = "=0.4.3", features = ["server"] }
