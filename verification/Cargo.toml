[package]
name = "keyprod"
version = "0.1.0"
edition = "2021"
publish = false

[dependencies]
lexopt = "0.3"
rusqlite = { version = "*", features = ["bundled"] }
chrono = "0.4"
tokio = { version = "1", features = ["rt", "sync", "time", "macros"] }
libc = "0.2"
nix = { version = "*", features = ["poll"] }
libudev = "0.3"
anyhow = "1"
thiserror = "*"
log = "0.4"
env_logger = "*"
async-trait = "0.1"
