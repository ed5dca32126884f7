[package]
name = "stratmaster_desktop"
version = "0.1.0"
edition = "2021"
publish = false

[dependencies]
num_cpus = "*"
sys-info = "*"
reqwest = { version = "*", default-features = false, features = ["blocking", "json"] }
serde = { version = "*", features = ["derive"] }
serde_json = "*"
webbrowser = "*"
