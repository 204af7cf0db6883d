[package]
name = "termlaunch"
version = "0.1.0"
edition = "2021"
publish = false

[dependencies]
meval = "0.2"
ratatui = "0.29"
crossterm = "0.28"
rdev = "0.5"
core-graphics = "0.24"
dirs = "5"
home = "0.5"
log = "0.4"
simplelog = "0.12"
once_cell = "1"
serde = { version = "1", features = ["derive"] }
toml = "0.8"
