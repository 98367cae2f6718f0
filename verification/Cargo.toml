[package]
name = "craftwad"
version = "0.1.0"
edition = "2021"
publish = false

[dependencies]
anyhow = "=1.0.104"
color-eyre = "=0.6.5"
crossterm = "=0.28.1"
csv = "=1.4.0"
gag = "=1.0.0"
image = { version = "=0.25.10", default-features = false, features = ["png"] }
indoc = "=2.0.8"
putpng = "=1.0.1"
ratatui = "=0.29.0"
serde = { version = "=1.0.229", features = ["derive"] }
tempfile = "=3.27.0"
three-d = { version = "=0.18.2", default-features = false, features = ["headless"] }
three-d-asset = { version = "=0.9.2", default-features = false, features = ["png"] }
tinywad = "=0.1.3"
tui-prompts = "=0.5.2"
which = "=8.0.6"
