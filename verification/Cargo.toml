[package]
name = "open_url"
version = "0.1.0"
edition = "2021"
publish = false

[dependencies]
regex = "*"
xdg = "*"
clap = "*"
color-eyre = "*"
eyre = "*"
log = "*"
loggerv = "*"
serde = { version = "*", features = ["derive"] }
toml = "*"
