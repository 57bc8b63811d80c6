[package]
name = "remy_widgets"
version = "0.1.0"
edition = "2021"
publish = false

[dependencies]
unicode-width = "*"
ratatui = { version = "0.29", features = ["unstable-widget-ref"] }
arboard = "*"
anyhow = "*"
