[package]
name = "mini_servo"
version = "0.1.0"
edition = "2021"
publish = false

[dependencies]
crossbeam-channel = "=0.5.17"
html5ever = "=0.35.0"
markup5ever_rcdom = "=0.35.0"
dpi = "=0.1.2"
euclid = "=0.22.14"
log = "=0.4.34"
parking_lot = "=0.12.5"
rayon = "=1.12.0"
winit = "=0.30.13"
env_logger = { version = "=0.11.11", default-features = false }
blitz-dom = "=0.2.4"
blitz-html = "=0.2.0"
stylo = "=0.8.0"
selectors = "=0.32.0"
stylo_dom = "=0.8.0"
stylo_traits = "=0.8.0"
app_units = "=0.7.8"
atomic_refcell = "=0.1.14"
