[package]
name = "leaf_aggregation"
version = "0.1.0"
edition = "2021"
publish = false

[dependencies]
async-trait = "=0.1.92"
circuit_definitions = "=0.150.21"
metrics = "=0.21.1"
serde = { version = "1", features = ["derive"] }
tokio = { version = "=1.54.1", features = ["rt", "time"] }
