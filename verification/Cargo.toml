[package]
name = "uploader"
version = "0.1.0"
edition = "2021"
publish = false

[dependencies]
anyhow = "1"
chrono = "0.4"
directories = "3"
fern = "0.6"
flate2 = "1"
log = { version = "0.4", features = ["serde"] }
notify = "4"
pico-args = "0.4"
serde = { version = "1", features = ["derive"] }
text_io = "0.1"
toml = "0.5"
ureq = "1"
