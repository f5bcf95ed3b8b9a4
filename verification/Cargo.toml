[package]
name = "overture"
version = "0.1.0"
edition = "2021"
publish = false

[dependencies]
chrono = "*"
chrono-tz = "*"
markdown = "*"
rss = "*"
url = "*"
toml = "*"
serde = { version = "*", features = ["derive"] }
minijinja = "*"
clap = { version = "*", features = ["derive"] }
tokio = { version = "*", features = ["macros", "rt-multi-thread"] }
reqwest = { version = "*", default-features = false }
rocket = "*"
fs_extra = "*"
