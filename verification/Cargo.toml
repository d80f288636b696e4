[package]
name = "beverly"
version = "0.1.0"
edition = "2021"
publish = false

[dependencies]
bevy = { version = "=0.19.1", default-features = false, features = ["bevy_ui"] }
accesskit = "=0.25.2"
anyhow = "=1.0.104"
reqwest = { version = "=0.13.5", default-features = false, features = ["blocking", "json", "form", "query"] }
rfd = { version = "=0.17.2", default-features = false, features = ["xdg-portal"] }
serde = { version = "=1.0.229", features = ["derive"] }
serde_json = "=1.0.154"
