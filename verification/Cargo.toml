[package]
name = "checklist"
version = "0.1.0"
edition = "2021"
publish = false

[dependencies]
anyhow = "*"
bytes = "*"
clap = { version = "*", features = ["derive"] }
color-print = "*"
dirs = "*"
libsql = { version = "*", default-features = false, features = ["core", "encryption"] }
tokio = { version = "*", features = ["macros", "rt-multi-thread"] }
whoami = "*"
