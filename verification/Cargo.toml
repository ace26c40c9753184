[package]
name = "groestl"
version = "0.1.0"
edition = "2021"
publish = false

[dependencies]
byte-tools = "=0.1.3"
digest-buffer = "=0.3.1"
generic-array = "=0.7.3"
