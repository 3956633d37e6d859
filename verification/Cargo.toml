[package]
name = "event_trace"
version = "0.1.0"
edition = "2021"
publish = false

[dependencies]
uuid = { version = "=1.29.0", features = ["v4"] }
rdev = "=0.5.3"
winapi = { version = "=0.3.9", features = ["winuser", "processthreadsapi", "psapi", "winnt", "windef"] }
serde = { version = "=1.0.229", features = ["derive"] }
serde_json = "=1.0.154"
tokio = { version = "=1.54.1", features = ["rt", "fs", "io-util", "sync", "macros", "time"] }
whoami = { version = "=1.6.1", default-features = false }
lazy_static = "=1.5.1"
log = "=0.4.35"
async-trait = "=0.1.92"
reqwest = { version = "0.12", default-features = false, features = ["multipart"] }
