[package]
name = "dicrs"
version = "0.1.0"
edition = "2021"
publish = false

[dependencies]
clipboard = "0.5"
failure = "0.1"
rusqlite = "0.24"
termion = "1.5"
tui = "0.8"
unicode-width = "0.1"
