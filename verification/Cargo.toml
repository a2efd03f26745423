[package]
name = "iced_table"
version = "0.1.0"
edition = "2021"
publish = false

[dependencies]
iced_core = "0.12"
iced_style = "0.12"
iced_widget = "0.12"
