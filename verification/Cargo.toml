[package]
name = "mandelbrot"
version = "0.1.0"
edition = "2021"
publish = false

[dependencies]
console_error_panic_hook = "0.1"
console_log = "0.2"
env_logger = "0.9"
log = "0.4"
palette = "0.6"
pixels = "0.9"
pollster = "0.2"
rand = "0.8"
wasm-bindgen = "0.2"
wasm-bindgen-futures = "0.4"
web-sys = "0.3"
winit = "0.26"
winit_input_helper = "0.11"
