[package]
name = "phi_local_llm"
version = "0.1.0"
edition = "2021"
publish = false

[dependencies]
anyhow = "*"
clap = { version = "*", features = ["derive"] }
dirs = "*"
num_cpus = "*"
tokio = { version = "*", features = ["rt-multi-thread", "macros", "fs", "time"] }
tracing = "*"
tracing-subscriber = { version = "*", features = ["env-filter"] }
