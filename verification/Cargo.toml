[package]
name = "weather_cache"
version = "0.1.0"
edition = "2021"
publish = false

[dependencies]
time = { version = "0.3", features = ["formatting", "parsing"] }
form_urlencoded = "1"
serde = { version = "1", features = ["derive"] }
serde_json = "1"
log = "0.4"
once_cell = "1"
tarantool = "*"
tlua = "*"
shors = "*"
fibreq = "*"
