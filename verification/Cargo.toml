[package]
name = "emoji_commit"
version = "0.1.0"
edition = "2021"
publish = false

[dependencies]
ansi_term = "*"
crossterm = "*"
default-editor = "*"
emoji-commit-type = "*"
libc = "*"
log-update = "*"
path-slash = "*"
structopt = "*"
