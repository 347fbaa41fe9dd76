[package]
name = "notiz"
version = "0.1.0"
edition = "2021"
publish = false

[dependencies]
reqwest = { version = "0.12", default-features = false, features = ["blocking", "json"] }
serde_json = "1"
eframe = { version = "0.37", default-features = false, features = ["glow", "x11", "default_fonts"] }
sqlx = { version = "0.8", default-features = false, features = ["sqlite", "runtime-tokio"] }
tokio = { version = "1", features = ["rt"] }
tray-icon = "*"
global-hotkey = "*"
directories = "*"
