[package]
name = "coordinator"
version = "0.1.0"
edition = "2021"
publish = false

[dependencies]
ethers-core = "2.0"
ethers-signers = "2.0"
hyper = { version = "0.14", features = ["client", "http1", "tcp"] }
log = "0.4"
serde = { version = "1", features = ["derive"] }
serde_json = "1"
tokio = { version = "1", features = ["macros", "process", "rt", "rt-multi-thread", "sync", "time"] }
