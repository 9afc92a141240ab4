[package]
name = "route_pin"
version = "0.1.0"
edition = "2021"
publish = false

[dependencies]
futures = "0.3"
local-ip-address = "*"
log = "0.4"
log4rs = "*"
net-route = "*"
tokio = { version = "1", features = ["full"] }
