[package]
name = "tunnel_manager"
version = "0.1.0"
edition = "2021"
publish = false

[dependencies]
bcrypt = "=0.19.3"
diesel = { version = "=2.3.14", default-features = false, features = ["postgres", "r2d2"] }
diesel_migrations = "=2.3.2"
dotenvy = "=0.15.7"
sqlx = { version = "=0.9.0", default-features = false, features = ["migrate"] }
tokio = { version = "=1.54.1", features = ["macros", "rt-multi-thread"] }
tonic = "=0.14.6"
tracing = "=0.1.44"
tracing-subscriber = "=0.3.23"
