[package]
name = "guidesync"
version = "0.1.0"
edition = "2021"
publish = false

[dependencies]
bytes = "*"
calamine = "*"
chrono = { version = "*", features = ["serde"] }
chrono-tz = "*"
colorutils-rs = "*"
html-escape = "*"
miette = "*"
reqwest = { version = "*", features = ["json"] }
serde = { version = "*", features = ["derive"] }
serde_json = "*"
serde_path_to_error = "*"
tokio = { version = "*", features = ["macros", "rt-multi-thread"] }
tracing = "*"
tracing-subscriber = { version = "*", features = ["env-filter"] }
umya-spreadsheet = "*"
