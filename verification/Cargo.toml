[package]
name = "rena"
version = "1.4.0"
edition = "2021"
publish = false

[dependencies]
clap = { version = "4", features = ["cargo"] }
color-eyre = "0.6"
paris = { version = "1.5", features = ["macros"] }
rayon = "1"
regex = "1"
strfmt = "0.2"
