[package]
name = "aws_crossing"
version = "0.1.0"
edition = "2021"
publish = false

[dependencies]
anyhow = "1"
async-trait = "0.1"
colored = "*"
env_logger = "*"
futures = "0.3"
serde = { version = "1", features = ["derive"] }
serde_json = "1"
shlex = "1"
structopt = "0.3"
tokio = { version = "1", features = ["full"] }
