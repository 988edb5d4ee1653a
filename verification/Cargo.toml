[package]
name = "grin_gui"
version = "0.1.0"
edition = "2021"
publish = false

[dependencies]
anyhow = "1"
log = "0.4"
chrono = "0.4"
strfmt = "0.2"
once_cell = "1"
