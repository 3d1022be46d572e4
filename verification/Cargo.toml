[package]
name = "bakeneko"
version = "0.1.0"
edition = "2021"
publish = false

[dependencies]
serde = { version = "1", features = ["derive"] }
serde_json = "1"
sha2 = "0.10"
reqwest = { version = "0.12", default-features = false }
tokio = { version = "1", features = ["rt-multi-thread", "net", "io-util", "time", "process", "sync", "macros", "fs"] }
async-trait = "0.1"
thiserror = "*"
rusqlite = { version = "*", features = ["bundled"] }
image = { version = "0.25", default-features = false, features = ["png", "jpeg", "gif", "webp"] }
discord-rich-presence = "*"
libc = "0.2"
