[package]
name = "messenger"
version = "0.1.0"
edition = "2021"
publish = false

[dependencies]
actix = "=0.13.5"
actix-files = "=0.7.2"
actix-web = "=4.18.1"
actix-web-actors = "=4.3.1"
dotenv = "=0.15.0"
env_logger = "=0.11.11"
log = "=0.4.34"
nanoid = "=0.5.0"
rmp-serde = "=1.3.1"
rmpv = { version = "=1.3.1", features = ["with-serde"] }
rs-snowflake = "=0.6.0"
serde = { version = "=1.0.229", features = ["derive"] }
serde_repr = "=0.1.21"
webrtc = "=0.9.0"
