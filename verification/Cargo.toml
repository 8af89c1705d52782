[package]
name = "typst_ansi_gui"
version = "0.1.0"
edition = "2021"
publish = false

[dependencies]
typst-ansi-hl = "*"
iced = { version = "0.12", default-features = false }
