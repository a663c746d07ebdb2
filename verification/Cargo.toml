[package]
name = "rsphate"
version = "0.1.0"
edition = "2021"
publish = false

[dependencies]
failure = "0.1"
mpris = "*"
serenity = "0.10"
tokio = { version = "1", features = ["macros", "rt-multi-thread"] }
