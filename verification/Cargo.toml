[package]
name = "thw_dash"
version = "0.1.0"
edition = "2021"
publish = false

[dependencies]
argh = "*"
clipboard = "0.5"
crossterm = "0.25"
select = "0.6"
tui = "0.19"
ureq = "2"
