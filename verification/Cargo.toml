[package]
name = "scheduler_witness_generator"
version = "0.1.0"
edition = "2021"
publish = false

[dependencies]
async-trait = "0.1"
circuit_definitions = "*"
metrics = "0.21"
tokio = { version = "1", features = ["rt", "time"] }
