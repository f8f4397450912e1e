[package]
name = "topbanana"
version = "0.1.0"
edition = "2021"
publish = false

[dependencies]
anyhow = "=1.0.104"
base64 = "=0.22.1"
bitflags = { version = "=2.13.2", features = ["serde"] }
chrono = { version = "=0.4.45", features = ["serde"] }
clap = { version = "=4.6.7", features = ["derive"] }
diesel = { version = "=2.1.6", default-features = false, features = ["postgres_backend", "chrono", "uuid"] }
diesel-async = { version = "=0.4.1", features = ["postgres"] }
digest = "=0.10.7"
fern = "=0.7.1"
humantime = "=2.4.0"
jsonwebtoken = "=9.3.1"
log = "=0.4.34"
rand = "=0.9.5"
rocket = { version = "=0.5.2", features = ["json"] }
rocket_db_pools = { version = "=0.2.0", features = ["diesel_postgres"] }
scoped-futures = "=0.1.4"
serde = { version = "=1.0.229", features = ["derive"] }
serde_json = "=1.0.154"
sha1 = "=0.10.7"
sha2 = "=0.10.9"
thiserror = "=2.0.21"
utoipa = { version = "=5.5.0", features = ["rocket_extras", "uuid", "chrono"] }
utoipa-swagger-ui = { version = "=9.0.2", features = ["rocket", "vendored"] }
uuid = { version = "=1.29.0", features = ["v4", "serde"] }
