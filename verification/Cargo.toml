[package]
name = "todo_list_rust"
version = "0.1.0"
edition = "2021"
publish = false

[dependencies]
rusqlite = "0.28"
rand = "0.8"
tui = "0.19"
crossterm = "0.25"
unicode-width = "0.1"
