[package]
name = "webmention"
version = "0.1.0"
edition = "2021"
publish = false

[dependencies]
url = "*"
http = "*"
scraper = "*"
reqwest = { version = "*", default-features = false }
tokio = { version = "*", features = ["macros", "rt-multi-thread", "fs"] }
structopt = "*"
anyhow = "*"
log = "*"
pretty_env_logger = "*"
