[package]
name = "bismuth_server"
version = "0.1.0"
edition = "2021"
publish = false

[dependencies]
serde_json = "*"
libc = "*"
fuser = { version = "*", default-features = false }
sea-orm = { version = "*", features = ["sqlx-sqlite", "runtime-tokio-rustls", "macros", "with-chrono", "with-uuid", "with-json"] }
sea-orm-migration = { version = "*", default-features = false, features = ["sqlx-sqlite", "runtime-tokio-rustls"] }
tokio = { version = "*", features = ["full"] }
clap = { version = "*", features = ["derive"] }
chrono = "*"
log = "*"
uuid = { version = "*", features = ["v4"] }
async-trait = "*"
