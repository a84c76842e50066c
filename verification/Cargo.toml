[package]
name = "curst"
version = "0.1.0"
edition = "2021"
publish = false

[dependencies]
ncurses = { version = "=5.101.0", features = ["panel"] }
displaydoc = "=0.2.7"
parse-display = "=0.11.0"
