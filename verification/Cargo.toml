[package]
name = "medici_orders"
version = "0.1.0"
edition = "2021"
publish = false

[dependencies]
serde = { version = "=1.0.229", features = ["derive"] }
serde_json = "=1.0.154"
ethereum-types = "=0.12.1"
web3 = { version = "=0.17.0", default-features = false, features = ["signing"] }
hex = "=0.4.3"
uuid = { version = "=0.8.2", features = ["v4"] }
itertools = "=0.10.5"
postgres = "=0.19.14"
reqwest = { version = "=0.11.27", default-features = false }
tokio = { version = "=1.54.1", features = ["sync"] }
rocket = { version = "0.5", features = ["json"] }
rocket_sync_db_pools = { version = "0.1", features = ["diesel_postgres_pool"] }
diesel = { version = "2", features = ["postgres", "serde_json"] }
diesel_migrations = "2"
