[package]
name = "events_api_redis_to_db"
version = "0.1.0"
edition = "2021"
publish = false

[dependencies]
anyhow = "1"
async-trait = "0.1"
bigdecimal = "0.4"
chrono = "0.4"
dotenvy = "0.15"
log = "0.4"
redis = { version = "*", features = ["tokio-comp"] }
serde_json = { version = "1", features = ["arbitrary_precision"] }
simple_logger = "*"
sqlx = { version = "0.8", default-features = false, features = ["postgres", "runtime-tokio", "bigdecimal", "chrono", "json"] }
tokio = { version = "1", features = ["rt-multi-thread", "macros", "time"] }
