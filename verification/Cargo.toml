[package]
name = "feim"
version = "0.1.0"
edition = "2021"
publish = false

[dependencies]
kanal = "*"
jpeg-decoder = "0.3"
jpeg-encoder = "*"
png = "0.17"
webp = { version = "*", default-features = false }
either = "1"
clap = { version = "4", features = ["derive"] }
serde = { version = "1", features = ["derive"] }
toml = "0.5"
fontdue = "*"
bracket-geometry = "*"
resize = "*"
