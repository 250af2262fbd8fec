[package]
name = "hshopper"
version = "0.1.0"
edition = "2021"
publish = false

[dependencies]
clap = { version = "*", features = ["derive"] }
futures-util = "*"
indicatif = "*"
reqwest = { version = "*", default-features = false, features = ["stream"] }
sqlx = { version = "*", default-features = false, features = ["sqlite", "runtime-tokio"] }
tokio = { version = "*", features = ["fs", "io-util", "macros", "rt-multi-thread"] }
