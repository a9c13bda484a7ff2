[package]
name = "market_research_core"
version = "0.1.0"
edition = "2021"
publish = false

[dependencies]
anyhow = "=1.0.104"
comrak = { version = "=0.44.0", default-features = false }
pyo3 = "=0.30.1"
serde_yaml = "=0.9.34"

[dev-dependencies]
regex = "=1.13.1"
