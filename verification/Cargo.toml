[package]
name = "music_box"
version = "0.1.0"
edition = "2021"
publish = false

[dependencies]
rusqlite = { version = "=0.24.2", features = ["chrono"] }
r2d2_sqlite = "=0.17.0"
r2d2 = "=0.8.10"
chrono = { version = "=0.4.45", features = ["serde"] }
dirs = "=3.0.2"
rand = "=0.8.8"
bitvec = "=1.1.1"
serde = "=1.0.229"
serde_derive = "=1.0.229"
serde_json = "=1.0.154"
actix-web = "=3.3.3"
tokio = { version = "=1.54.1", features = ["rt-multi-thread", "macros", "time", "sync"] }
rodio = "=0.11.0"
termion = "=1.5.6"
tui = { version = "=0.14.0", default-features = false, features = ["termion"] }
rppal = { version = "=0.11.3", features = ["hal"] }
mcp23017 = "=1.1.0"
shared-bus = { version = "=0.2.5", features = ["std"] }
log = "=0.4.35"
env_logger = "=0.8.4"
anyhow = "=1.0.104"
derive_more = "=0.99.20"
