[package]
name = "model_loaders"
version = "0.1.0"
edition = "2021"
publish = false

[dependencies]
anyhow = "=1.0.104"
candle-nn = "=0.4.1"
# Nothing here calls `half`. The line holds candle-core 0.4.1, which candle-nn
# brings, to the last version of `half` that it compiles with.
half = "=2.4.1"
pyo3 = "=0.30.1"
serde = { version = "=1.0.229", features = ["derive"] }
serde_json = "=1.0.154"
