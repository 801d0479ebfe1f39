[package]
name = "mixture_estimator"
version = "0.1.0"
edition = "2021"
publish = false

[dependencies]
console_error_panic_hook = "0.1"
nalgebra = "0.29"
num-traits = "0.2"
once_cell = "1"
plotters = { version = "0.3", default-features = false, features = ["surface_series", "full_palette"] }
plotters-canvas = "0.3"
rand = "0.8"
statrs = "=0.16.0"
wasm-bindgen = "0.2"
web-sys = { version = "0.3", features = ["Window", "Document", "Element", "HtmlCanvasElement"] }
