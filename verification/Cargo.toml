[package]
name = "pain_lsp"
version = "0.1.0"
edition = "2021"
publish = false

[dependencies]
tower-lsp = "*"
tokio = { version = "*", features = ["macros", "rt-multi-thread", "io-std", "sync"] }
url = "*"
chrono = "*"
