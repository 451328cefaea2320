[package]
name = "get_selected_text"
version = "0.1.0"
edition = "2021"
publish = false

[dependencies]
lru = "*"
accessibility-ng = "*"
accessibility-sys-ng = "*"
active-win-pos-rs = "*"
core-foundation = "*"
enigo = "*"
parking_lot = "*"
debug_print = "*"
