[package]
name = "slint-backend-linuxfb"
version = "0.1.0"
edition = "2021"
publish = false

[dependencies]
bytemuck = { version = "=1.25.2", features = ["derive"] }
ctrlc = "=3.5.2"
evdev = "=0.13.2"
i-slint-core = { version = "=1.14.1", features = ["software-renderer"] }
libc = "=0.2.191"
memmap2 = "=0.9.12"
thiserror = "=2.0.21"
tracing = "=0.1.44"
xkbcommon-rs = { version = "=0.1.2", features = ["server"] }
xkeysym = "=0.2.1"
