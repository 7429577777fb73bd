[package]
name = "cmd_launcher"
version = "0.1.0"
edition = "2021"
publish = false

[dependencies]
fuzzy-matcher = "0.3"
shellwords = "1"
ansi_term = "0.12"
owo-colors = "*"
zellij-tile = "*"
