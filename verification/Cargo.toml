[package]
name = "asciiarena"
version = "0.1.0"
edition = "2021"
publish = false

[dependencies]
crossterm = "=0.29.0"
ctrlc = "=3.5.2"
derive-new = "=0.7.0"
log = "=0.4.34"
message-io = "=0.5.1"
serde = { version = "=1.0.229", features = ["derive"] }
tui = { version = "=0.19.0", default-features = false }
