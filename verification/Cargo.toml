[package]
name = "mattdaemon"
version = "0.1.0"
edition = "2021"
publish = false

[dependencies]
hex = "=0.4.3"
plist = "=1.10.3"
serde = { version = "1", features = ["derive"] }
serde_json = "1"
tokio = { version = "=1.54.1", features = ["rt-multi-thread", "macros", "time"] }
tokio-rusqlite = "=0.8.0"
ureq = { version = "2", default-features = false }
