[package]
name = "bitfield"
version = "0.1.0"
edition = "2021"
publish = false

[dependencies]
colored = "2"
either = "1"
inquire = "*"
proc-macro2 = "1"
quote = "1"
syn = { version = "1", features = ["full", "extra-traits", "visit-mut"] }
