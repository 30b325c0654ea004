[package]
name = "tracing_indicatif"
version = "0.1.0"
edition = "2021"
publish = false

[dependencies]
indicatif = "=0.16.2"
console = "0.16"
tracing = "=0.1.44"
tracing-subscriber = "=0.2.25"
