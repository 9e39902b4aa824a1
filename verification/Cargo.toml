[package]
name = "plug_gui"
version = "0.1.0"
edition = "2021"
publish = false

[dependencies]
baseview = "=0.3.7"
blitz-traits = "=0.3.0-beta.4"
crossbeam = "=0.8.5"
cursor-icon = "=1.2.0"
data-url = "=0.3.2"
egui = { version = "=0.37.0", default-features = false }
futures-util = { version = "=0.3.34", default-features = false, features = ["alloc"] }
iced_debug = "=0.14.0"
iced_futures = { version = "=0.14.0", features = ["thread-pool"] }
iced_program = "=0.14.0"
keyboard-types = "=0.8.3"
libc = "=0.2.191"
parking_lot = "0.12"
pollster = "=0.4.0"
raw-window-handle = "=0.6.2"
smol_str = "=0.3.7"
wgpu = { version = "=29.0.4", default-features = false }
