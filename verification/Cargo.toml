[package]
name = "tui_slides"
version = "0.1.0"
edition = "2021"
publish = false

[dependencies]
ratatui = "=0.29.0"
ratatui-image = { version = "=8.1.1", default-features = false, features = ["crossterm"] }
image = { version = "=0.25.10", default-features = false, features = ["png", "jpeg"] }
syntect = { version = "=5.3.0", default-features = false, features = ["default-fancy"] }
syntect-tui = "=3.0.6"
tui-big-text = "=0.7.3"
serde = { version = "=1.0.229", features = ["derive"] }
serde_json = "=1.0.154"
color-eyre = "=0.6.5"
tokio = { version = "=1.54.1", features = ["sync"] }
