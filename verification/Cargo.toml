[package]
name = "surely_you_jest"
version = "0.1.0"
edition = "2021"
publish = false

[dependencies]
regex = "1"
glob = "0.3"
crossterm = "0.28"
ratatui = "0.29"
color-eyre = "0.6"
