[package]
name = "if_os"
version = "0.1.0"
edition = "2021"
publish = false

[dependencies]
volatile = "0.2.6"
spin = "0.5.2"
lazy_static = { version = "=1.4.0", features = ["spin_no_std"] }
rlibc = "1.0"
