[package]
name = "booster"
version = "0.1.0"
edition = "2021"
publish = false

[dependencies]
heapless = "=0.8.0"
serde = { version = "=1.0.229", default-features = false, features = ["derive"] }
serde-json-core = "=0.6.0"
embedded-hal = "=1.0.0"
ad5627 = "=0.2.0"
ads7924 = "=0.2.0"
dac7571 = "=0.2.0"
max6642 = "=0.2.0"
mcp3221 = "=0.2.0"
microchip-24aa02e48 = "=0.2.0"
tca9548 = "=0.2.0"
