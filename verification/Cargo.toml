[package]
name = "agenda_ics"
version = "0.1.0"
edition = "2021"
publish = false

[dependencies]
chrono = "0.4"
clap = { version = "4", features = ["derive"] }
ics = "0.5"
regex = "1"
reqwest = { version = "0.11", features = ["blocking"] }
scraper = "*"
uuid = { version = "1", features = ["v4"] }
