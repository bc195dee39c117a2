[package]
name = "typst_nif"
version = "0.1.0"
edition = "2021"
publish = false

[dependencies]
chrono = "0.4"
ecow = "0.2"
parking_lot = "0.12"
rustler = "0.36"
typst = "0.13.1"
typst-kit = "0.13.1"
typst-pdf = "0.13.1"
typst-svg = "0.13.1"
typst-timing = "0.13.1"
