[package]
name = "pg_ddl"
version = "0.1.0"
edition = "2021"
publish = false

[dependencies]
anyhow = "=1.0.104"
env_logger = "=0.11.11"
futures = "=0.3.34"
log = "=0.4.34"
sqlx = { version = "=0.7.4", default-features = false, features = ["runtime-tokio", "postgres", "macros"] }
tokio = { version = "=1.53.2", features = ["macros", "rt-multi-thread"] }
