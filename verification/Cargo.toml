[package]
name = "qubit_execution_services"
version = "0.1.0"
edition = "2021"
publish = false

[dependencies]
qubit-executor = "=0.9.0"
qubit-function = "=0.18.3"
qubit-rayon-executor = { version = "=0.9.0", features = ["async-wait"] }
qubit-thread-pool = { version = "=0.12.1", features = ["async-wait"] }
qubit-tokio-executor = "=0.11.0"
thiserror = "=2.0.21"
tokio = { version = "=1.54.1", features = ["rt", "rt-multi-thread", "time", "macros", "sync"] }
