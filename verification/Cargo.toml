[package]
name = "backend"
version = "0.1.0"
edition = "2021"
publish = false

[dependencies]
bcrypt = "*"
chrono = { version = "0.4", features = ["serde"] }
clap = { version = "4", features = ["derive"] }
diesel = { version = "2.1", features = ["chrono", "mysql_backend"] }
diesel_migrations = "2.1"
image = { version = "0.25", default-features = false, features = ["jpeg", "png", "gif"] }
rocket = { version = "0.5", features = ["json"] }
rocket_db_pools = { version = "0.2", features = ["diesel_mysql"] }
serde = { version = "1", features = ["derive"] }
thiserror = "*"
tracing = "0.1"
uuid = { version = "1", features = ["v4"] }
