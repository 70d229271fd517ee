[package]
name = "crossinfo"
version = "0.1.0"
edition = "2021"
publish = false

[dependencies]
battery = "0.7"
crossterm = "0.27"
humansize = "2"
ipnetwork = "0.20"
itertools = "0.13"
local-ip-address = "0.6"
pnet_datalink = "0.35"
ratatui = "0.26"
strum = "0.26"
strum_macros = "0.26"
sysinfo = { version = "0.30", default-features = false }
uom = "0.36"
wifiscanner = "0.5"
