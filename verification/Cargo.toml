[package]
name = "libresy"
version = "0.1.0"
edition = "2021"
publish = false

[dependencies]
anyhow = "*"
async-std = "*"
chrono = "=0.4.45"
clap = { version = "*", features = ["derive", "env"] }
clap-verbosity-flag = "*"
directories = "*"
reqwest = { version = "*", default-features = false, features = ["form", "json", "query"] }
serde = { version = "*", features = ["derive"] }
serde_json = "*"
tokio = { version = "*", features = ["macros", "rt-multi-thread"] }
