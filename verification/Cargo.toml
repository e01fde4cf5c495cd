[package]
name = "libzetta"
version = "0.4.1"
edition = "2021"
publish = false

[dependencies]
regex = "1"
chrono = { version = "0.4", default-features = false, features = ["alloc"] }
slog = "2"
slog-stdlog = "4"
once_cell = "1"
libc = "0.2"
libnv = "*"
zfs-core-sys = "*"
cstr-argument = "*"
