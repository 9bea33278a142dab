[package]
name = "forum_watch"
version = "0.1.0"
edition = "2021"
publish = false

[dependencies]
chrono = "=0.4.45"
promkit = { version = "=0.9.1", features = ["listbox"] }
reqwest = { version = "=0.13.5", features = ["blocking"] }
scraper = "=0.29.0"
strum = { version = "=0.28.0", features = ["derive"] }
term-table = "=1.4.0"
