[package]
name = "adventure_dl"
version = "0.1.0"
edition = "2021"
publish = false

[dependencies]
egui_extras = { version = "0.27", default-features = false, features = ["image"] }
image = { version = "0.24", default-features = false, features = ["png"] }
reqwest = { version = "0.11", default-features = false, features = ["blocking"] }
