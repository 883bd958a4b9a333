[package]
name = "boomer"
version = "0.1.0"
edition = "2021"
publish = false

[dependencies]
giftwrap = "*"
gtk = "0.15"
gtk-layer-shell = "*"
serde = { version = "1", features = ["derive"] }
serde_json = "1"
