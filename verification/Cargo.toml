[package]
name = "pawn_appetit"
version = "0.1.0"
edition = "2021"
publish = false

[dependencies]
shakmaty = { version = "=0.27.3", features = ["variant"] }
governor = "=0.6.3"
dashmap = "=6.2.1"
tokio = { version = "=1.54.1", features = ["process", "io-util", "sync", "time", "rt", "rt-multi-thread", "macros"] }
serde = { version = "=1.0.229", features = ["derive"] }
serde_json = "1"
log = "=0.4.34"
