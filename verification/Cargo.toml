[package]
name = "todo_cli"
version = "0.1.0"
edition = "2021"
publish = false

[dependencies]
chrono = "0.4"
clap = "2"
crossterm = "0.5"
home = "0.3"
todo-txt = "1"
toml = "0.4"
