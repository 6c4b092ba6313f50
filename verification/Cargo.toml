[package]
name = "sentient_core"
version = "0.1.0"
edition = "2021"
publish = false

[dependencies]
async-trait = "=0.1.92"
futures = "=0.3.34"
horizon_event_system = "=0.23.0"
tracing = "=0.1.44"
