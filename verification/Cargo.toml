[package]
name = "electron_repl"
version = "0.1.0"
edition = "2021"
publish = false

[dependencies]
clap = "4"
reqwest = { version = "0.12", default-features = false }
rustyline = "*"
serde_json = "1"
tokio = { version = "1", features = ["macros", "rt-multi-thread", "time"] }
tungstenite = "*"
