[package]
name = "font_entry"
version = "0.1.0"
edition = "2021"
publish = false

[dependencies]
pdf_encoding = "*"
pdf = "*"
font = "*"
