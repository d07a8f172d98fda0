[package]
name = "i2a-rs"
version = "0.1.0"
edition = "2021"
publish = false

[dependencies]
clap = "2"
crossterm = "0.27"
data-encoding = "2"
image = { version = "0.24", default-features = false, features = ["gif", "jpeg", "png"] }
json = "0.12"
regex = "1"
ring = "0.17"
term_size = "0.3"
