[package]
name = "dim"
version = "0.1.0"
edition = "2021"
publish = false

[dependencies]
jsonwebtoken = "=9.3.1"
serde = { version = "=1.0.229", features = ["derive"] }
serde_json = { version = "=1.0.154", features = ["preserve_order"] }
time = "=0.1.45"
slog = "=2.8.2"
log = "=0.4.35"
cfg-if = "=1.0.5"
once_cell = "=1.21.4"
lazy_static = "=1.5.1"
dotenv = "=0.15.0"
bytes = "=1.12.1"
tar = "=0.4.46"
xz2 = "=0.1.7"
zip = { version = "=0.6.6", default-features = false, features = ["deflate"] }
reqwest = { version = "=0.11.27", default-features = false, features = ["blocking", "rustls-tls"] }
tokio = { version = "=1.54.1", features = ["rt-multi-thread", "sync", "macros"] }
diesel = { version = "=1.4.8", features = ["sqlite"] }
diesel_migrations = "=1.4.0"
rocket = { version = "=0.5.2", features = ["json"] }
rocket_cors = "=0.6.0"
