[package]
name = "gallery_scraper"
version = "0.1.0"
edition = "2021"
publish = false

[dependencies]
anyhow = "*"
color-eyre = "*"
reqwest = { version = "*", default-features = false }
thirtyfour = "*"
tokio = { version = "*", features = ["macros", "rt-multi-thread", "fs", "io-util"] }
