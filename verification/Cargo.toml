[package]
name = "graph_backend"
version = "0.1.0"
edition = "2021"
publish = false

[dependencies]
actix-files = "0.5"
actix-http = "2"
actix-web = "3"
askama = "0.10"
chrono = { version = "0.4", features = ["serde"] }
diesel = { version = "1.4", features = ["postgres", "r2d2", "chrono"] }
diesel_migrations = "1.4"
dotenv = "0.15"
env_logger = "0.8"
lazy_static = "1"
log = "0.4"
r2d2 = "0.8"
serde = { version = "1", features = ["derive"] }
serde_json = "1"
