[package]
name = "toss"
version = "0.1.0"
edition = "2021"
publish = false

[dependencies]
clap = { version = "4", features = ["derive"] }
console = "*"
kdam = { version = "*", features = ["rich", "spinner"] }
streamshare = "*"
tokio = { version = "1", features = ["macros", "rt-multi-thread"] }
