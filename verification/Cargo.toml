[package]
name = "eucalyptus"
version = "0.1.0"
edition = "2021"
publish = false

[dependencies]
futures = "=0.3.34"
iced_core = "=0.14.0"
iced_futures = { version = "=0.14.0", features = ["thread-pool"] }
iced_graphics = "=0.14.0"
iced_runtime = "=0.14.0"
iced_wgpu = "=0.14.0"
iced_widget = "=0.14.2"
raw-window-handle = "=0.6.2"
serde = { version = "=1.0.229", features = ["derive"] }
smithay-client-toolkit = { version = "=0.21.1", default-features = false, features = ["calloop"] }
tokio = { version = "=1.54.1", features = ["rt"] }
toml = "1"
tracing = "=0.1.44"
# The system backend has the display pointer that windows are drawn through; it is
# loaded when the program starts.
wayland-backend = { version = "=0.3.17", features = ["client_system", "dlopen"] }
