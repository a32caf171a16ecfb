[package]
name = "todomvc"
version = "0.1.0"
edition = "2021"
publish = false

[dependencies]
crossterm = "0.27"
ratatui = "0.27"
zi = "0.3"
zi-term = "0.3"
