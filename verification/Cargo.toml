[package]
name = "ngx_radar"
version = "0.1.0"
edition = "2021"
publish = false

[dependencies]
anyhow = "1"
axum = "*"
chrono = "0.4"
clap = { version = "4", features = ["derive"] }
colored = "*"
comfy-table = "*"
dotenv = "0.15"
reqwest = { version = "*", default-features = false, features = ["json"] }
scraper = "*"
serde_json = "1"
tokio = { version = "1", features = ["macros", "rt-multi-thread", "time", "net"] }
tokio-retry = "*"
tower = "*"
tower-http = { version = "*", features = ["cors", "set-header"] }
tracing = "0.1"
tracing-subscriber = { version = "0.3", features = ["env-filter"] }
