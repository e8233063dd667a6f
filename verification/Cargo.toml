[package]
name = "paladin"
version = "0.1.0"
edition = "2021"
publish = false

[dependencies]
conrod = { version = "=0.61.1", features = ["piston"] }
docopt = "=0.7.0"
find_folder = "=0.3.0"
rustc-serialize = "=0.3.25"
