[package]
name = "linkstitcher"
version = "0.1.0"
edition = "2021"
publish = false

[dependencies]
anyhow = "=1.0.104"
chrono = "=0.4.45"
diesel = { version = "=2.3.13", features = ["sqlite", "chrono"] }
dotenvy = "=0.15.7"
env_logger = "=0.11.11"
futures = "=0.3.34"
libsqlite3-sys = { version = "=0.38.2", features = ["bundled"] }
log = "=0.4.34"
octocrab = "=0.44.1"
pdf-extract = "=0.12.1"
readability-js = "=0.1.6"
reqwest = { version = "=0.13.5", default-features = false, features = ["json"] }
rss = "=2.1.2"
scraper = "=0.27.0"
serde = { version = "=1.0.229", features = ["derive"] }
tempfile = "=3.27.0"
thiserror = "=2.0.21"
tokio = { version = "=1.53.2", features = ["macros", "rt-multi-thread"] }
url = "=2.5.8"
urlencoding = "=2.1.3"
xml-rs = "=1.0.0"
