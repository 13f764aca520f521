[package]
name = "pool_signal"
version = "0.1.0"
edition = "2021"
publish = false

[dependencies]
bs58 = "*"
orca_whirlpools_client = "*"
tokio = { version = "*", features = ["macros", "rt-multi-thread"] }
futures = "*"
log = "*"
env_logger = "*"
dotenv = "*"
rustls = "*"
tonic = "*"
yellowstone-grpc-client = "*"
yellowstone-grpc-proto = "*"
