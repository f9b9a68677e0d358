[package]
name = "simple_crud"
version = "0.1.0"
edition = "2021"
publish = false

[dependencies]
uuid = { version = "=1.29.0", features = ["v4"] }
log = "=0.4.34"
env_logger = "=0.11.11"
dotenv = "=0.15.0"
tokio = { version = "=1.54.1", features = ["rt-multi-thread", "macros"] }
tonic = "=0.14.6"
tonic-prost = "0.14"
prost = "0.14"
diesel = { version = "=2.3.14", features = ["postgres", "r2d2", "uuid"] }
diesel_migrations = "=2.3.2"
