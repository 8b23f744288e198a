[package]
name = "gba_emu"
version = "0.1.0"
edition = "2021"
publish = false

[dependencies]
font8x8 = "0.3"
minifb = "0.27"
