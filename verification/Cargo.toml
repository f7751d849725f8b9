[package]
name = "swipe_server"
version = "0.1.0"
edition = "2021"
publish = false

[dependencies]
actix = "=0.13.5"
actix-web = "=4.18.1"
chrono = "=0.4.45"
colored = "=2.2.0"
diesel = { version = "=2.3.14", features = ["mysql", "r2d2", "chrono"] }
dotenv = "=0.15.0"
env_logger = "=0.11.11"
futures = "=0.3.34"
juniper = { version = "=0.16.2", features = ["chrono"] }
num_cpus = "=1.17.0"
r2d2 = "=0.8.10"
r2d2-diesel = "=1.0.0"
rocket = "=0.5.2"
serde = { version = "=1.0.229", features = ["derive"] }
serde_derive = "=1.0.229"
serde_json = "=1.0.154"
uuid = { version = "=1.29.1", features = ["v4"] }
