[package]
name = "pracus"
version = "0.1.0"
edition = "2021"
publish = false

[dependencies]
clap = { version = "4", default-features = false, features = ["std", "derive", "help", "usage", "error-context"] }
csv = "1"
eframe = { version = "0.27", default-features = false, features = ["default_fonts", "glow"] }
egui_extras = { version = "0.27", default-features = false }
reqwest = { version = "0.12", default-features = false, features = ["blocking", "default-tls"] }
scraper = "0.29"
